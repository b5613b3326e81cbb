//! Where the backup tool is found, and where it is fetched from.

use crate::text::{concat3, same_text, trim, trimmed};
use crate::utils::command::{asked_for, plain_call, run_plain};
use crate::utils::executor::{
    CommandErrorView, CommandExecutor, CommandOutputView, Recorded,
};
use crate::utils::host::{home_dir, path_exists};
use crate::utils::paths::{join, join_spec};
use crate::utils::restic::{describe_error, error_text, push_arg, text_view};
use vstd::prelude::*;

verus! {

/// The name of the program.
pub fn restic_binary_name() -> (r: &'static str)
    ensures
        r@ == "restic"@,
{
    "restic"
}

/// The directory of the application under the home directory `home`, or
/// under the current directory where no home directory is known.
pub open spec fn app_dir_spec(home: Option<Seq<char>>) -> Seq<char> {
    match home {
        Some(h) => join_spec(h, ".restic-manager"@),
        None => ".restic-manager"@,
    }
}

/// The file of the managed program under the home directory `home`.
pub open spec fn bin_path_spec(home: Option<Seq<char>>) -> Seq<char> {
    join_spec(join_spec(app_dir_spec(home), "bin"@), "restic"@)
}

/// The directory of the application.
pub fn app_dir_in(home: Option<&str>) -> (r: String)
    ensures
        r@ == app_dir_spec(home.deep_view()),
{
    match home {
        Some(h) => join(h, ".restic-manager"),
        None => ".restic-manager".to_owned(),
    }
}

/// The file of the managed program under the home directory `home`.
pub fn restic_bin_path_in(home: Option<&str>) -> (r: String)
    ensures
        r@ == bin_path_spec(home.deep_view()),
{
    let dir = app_dir_in(home);
    let bin = join(dir.as_str(), "bin");
    join(bin.as_str(), restic_binary_name())
}

/// The directory of the application, under the home directory that the
/// machine reports.
pub fn get_app_dir() -> (r: String)
    ensures
        exists|home: Option<Seq<char>>| r@ == app_dir_spec(home),
{
    let home = home_dir();
    let r = match &home {
        Some(h) => app_dir_in(Some(h.as_str())),
        None => app_dir_in(None),
    };
    assert(r@ == app_dir_spec(home.deep_view()));
    r
}

/// The file of the managed program, under the home directory that the
/// machine reports.
pub fn get_restic_bin_path() -> (r: String)
    ensures
        exists|home: Option<Seq<char>>| r@ == bin_path_spec(home),
{
    let home = home_dir();
    let r = match &home {
        Some(h) => restic_bin_path_in(Some(h.as_str())),
        None => restic_bin_path_in(None),
    };
    assert(r@ == bin_path_spec(home.deep_view()));
    r
}

/// Whether the managed program is there right now.
pub fn local_restic_exists() -> (r: bool) {
    path_exists(get_restic_bin_path().as_str())
}

/// Whether `which::which` finds a program called `restic` on the search path
/// right now. The answer depends on the machine, so nothing is promised of
/// it.
#[verifier::external_body]
pub fn system_restic_exists() -> (r: bool) {
    which::which("restic").is_ok()
}

/// Whether the program can be had, given what was found: the managed
/// program counts always, the one on the search path only where it is
/// asked for.
pub open spec fn exists_spec(use_system: bool, local: bool, system: bool) -> bool {
    local || (use_system && system)
}

/// Whether the program can be had, given what was found.
pub fn restic_exists_given(use_system: bool, local: bool, system: bool) -> (r: bool)
    ensures
        r == exists_spec(use_system, local, system),
{
    local || (use_system && system)
}

/// Whether the program can be had right now: [`restic_exists_given`] of
/// what the machine says of the managed program and of the search path,
/// which is asked only where the program on it may be used.
pub fn restic_exists(use_system: bool) -> (r: bool) {
    let local = local_restic_exists();
    let system = use_system && system_restic_exists();
    restic_exists_given(use_system, local, system)
}

/// The command that runs the program, given what was found: the one on the
/// search path where it is asked for and there, else the managed program,
/// there or not.
pub open spec fn command_spec(use_system: bool, system: bool, local_path: Seq<char>) -> Seq<char> {
    if use_system && system {
        "restic"@
    } else {
        local_path
    }
}

/// The command that runs the program, given what was found.
pub fn restic_command_given(use_system: bool, system: bool, local_path: &str) -> (r: String)
    ensures
        r@ == command_spec(use_system, system, local_path@),
{
    if use_system && system {
        "restic".to_owned()
    } else {
        local_path.to_owned()
    }
}

/// The command that runs the program.
pub fn get_restic_command(use_system: bool) -> (r: String)
    ensures
        !use_system ==> exists|home: Option<Seq<char>>| r@ == bin_path_spec(home),
        use_system ==> r@ == "restic"@ || exists|home: Option<Seq<char>>| r@ == bin_path_spec(home),
{
    let system = use_system && system_restic_exists();
    let local = get_restic_bin_path();
    restic_command_given(use_system, system, local.as_str())
}

/// Where the program comes from.
#[derive(Debug)]
pub enum ResticSource {
    /// The program on the search path.
    System,
    /// The managed program at this path, which is there.
    Local(String),
    /// The managed program at this path, which has to be fetched first.
    Download(String),
}

/// What a [`ResticSource`] holds, as a value of specifications.
pub enum ResticSourceView {
    System,
    Local(Seq<char>),
    Download(Seq<char>),
}

impl View for ResticSource {
    type V = ResticSourceView;

    open spec fn view(&self) -> ResticSourceView {
        match self {
            ResticSource::System => ResticSourceView::System,
            ResticSource::Local(p) => ResticSourceView::Local(p@),
            ResticSource::Download(p) => ResticSourceView::Download(p@),
        }
    }
}

/// Where the program comes from, given what was found. Where the one on
/// the search path is asked for and missing, there is none.
pub open spec fn source_spec(use_system: bool, system: bool, local: bool, local_path: Seq<char>) -> Result<
    ResticSourceView,
    Seq<char>,
> {
    if use_system {
        if system {
            Ok(ResticSourceView::System)
        } else {
            Err("System restic requested but not found in PATH"@)
        }
    } else if local {
        Ok(ResticSourceView::Local(local_path))
    } else {
        Ok(ResticSourceView::Download(local_path))
    }
}

/// Where the program comes from, given what was found.
pub fn ensure_restic_given(use_system: bool, system: bool, local: bool, local_path: &str) -> (r:
    Result<ResticSource, String>)
    ensures
        match r {
            Ok(s) => source_spec(use_system, system, local, local_path@) == Ok::<
                ResticSourceView,
                Seq<char>,
            >(s@),
            Err(m) => source_spec(use_system, system, local, local_path@) == Err::<
                ResticSourceView,
                Seq<char>,
            >(m@),
        },
{
    if use_system {
        if system {
            Ok(ResticSource::System)
        } else {
            Err("System restic requested but not found in PATH".to_owned())
        }
    } else if local {
        Ok(ResticSource::Local(local_path.to_owned()))
    } else {
        Ok(ResticSource::Download(local_path.to_owned()))
    }
}

/// Where the program comes from right now.
pub fn ensure_restic(use_system: bool) -> (r: Result<ResticSource, String>)
    ensures
        match r {
            Ok(s) => (s@ is System <==> use_system),
            Err(m) => use_system && m@ == "System restic requested but not found in PATH"@,
        },
{
    let local_path = get_restic_bin_path();
    let system = use_system && system_restic_exists();
    let local = !use_system && path_exists(local_path.as_str());
    ensure_restic_given(use_system, system, local, local_path.as_str())
}

/// The names by which a release is built for a system, and the kind of its
/// archive; `None` for a system that has no release.
pub open spec fn platform_spec(os: Seq<char>, arch: Seq<char>) -> Option<
    (Seq<char>, Seq<char>, Seq<char>),
> {
    let a = if arch == "x86_64"@ {
        Some("amd64"@)
    } else if arch == "aarch64"@ {
        Some("arm64"@)
    } else {
        None
    };
    match a {
        None => None,
        Some(arch_name) => if os == "windows"@ {
            Some(("windows"@, arch_name, "zip"@))
        } else if os == "linux"@ {
            Some(("linux"@, arch_name, "bz2"@))
        } else if os == "macos"@ {
            Some(("darwin"@, arch_name, "bz2"@))
        } else {
            None
        },
    }
}

/// The position of the first character of `s`, at or after `from`, that is
/// no `v`.
pub open spec fn skip_v(s: Seq<char>, from: int) -> int
    decreases s.len() - from,
{
    if from < 0 || from >= s.len() || s[from] != 'v' {
        from
    } else {
        skip_v(s, from + 1)
    }
}

/// The number of a version: the version without the `v`s at its start.
pub open spec fn version_number(version: Seq<char>) -> Seq<char> {
    if skip_v(version, 0) >= version.len() {
        Seq::empty()
    } else {
        version.subrange(skip_v(version, 0), version.len() as int)
    }
}

/// Where the release `version` for a system is fetched from.
pub open spec fn download_url_spec(version: Seq<char>, os: Seq<char>, arch: Seq<char>) -> Option<
    Seq<char>,
> {
    match platform_spec(os, arch) {
        Some((os_name, arch_name, ext)) => Some(
            "https://github.com/restic/restic/releases/download/"@ + version + "/restic_"@
                + version_number(version) + "_"@ + os_name + "_"@ + arch_name + "."@ + ext,
        ),
        None => None,
    }
}

/// The names by which a release is built for a system.
pub fn platform(os: &str, arch: &str) -> (r: Option<(&'static str, &'static str, &'static str)>)
    ensures
        match r {
            Some((o, a, e)) => platform_spec(os@, arch@) == Some((o@, a@, e@)),
            None => platform_spec(os@, arch@) is None,
        },
{
    let arch_name = if same_text(arch, "x86_64") {
        "amd64"
    } else if same_text(arch, "aarch64") {
        "arm64"
    } else {
        return None;
    };
    if same_text(os, "windows") {
        Some(("windows", arch_name, "zip"))
    } else if same_text(os, "linux") {
        Some(("linux", arch_name, "bz2"))
    } else if same_text(os, "macos") {
        Some(("darwin", arch_name, "bz2"))
    } else {
        None
    }
}

/// The number of a version.
pub fn strip_version(version: &str) -> (r: String)
    ensures
        r@ == version_number(version@),
{
    let n = version.unicode_len();
    let mut from: usize = 0;
    while from < n && version.get_char(from) == 'v'
        invariant
            from <= n,
            n == version@.len(),
            skip_v(version@, 0) == skip_v(version@, from as int),
        decreases n - from,
    {
        from = from + 1;
    }
    if from >= n {
        String::new()
    } else {
        version.substring_char(from, n).to_owned()
    }
}

/// Where the release `version` for a system is fetched from; an error for
/// a system that has no release.
pub fn get_download_url(version: &str, os: &str, arch: &str) -> (r: Result<String, String>)
    ensures
        match r {
            Ok(url) => download_url_spec(version@, os@, arch@) == Some(url@),
            Err(m) => download_url_spec(version@, os@, arch@) is None && m@
                == "Unsupported operating system or architecture"@,
        },
{
    match platform(os, arch) {
        Some((os_name, arch_name, ext)) => {
            let mut url = concat3(
                "https://github.com/restic/restic/releases/download/",
                version,
                "/restic_",
            );
            url.append(strip_version(version).as_str());
            url.append("_");
            url.append(os_name);
            url.append("_");
            url.append(arch_name);
            url.append(".");
            url.append(ext);
            Ok(url)
        },
        None => Err("Unsupported operating system or architecture".to_owned()),
    }
}

/// What `bzip2` unpacks from `bytes`; `None` where it refuses them.
pub uninterp spec fn bz2_unpacked(bytes: Seq<u8>) -> Option<Seq<u8>>;

/// Unpacks with `bzip2::read::BzDecoder`, read to its end. What comes out
/// is a function of the bytes alone; the library knows it as
/// [`bz2_unpacked`].
#[verifier::external_body]
fn unpack_bz2(bytes: &Vec<u8>) -> (r: Option<Vec<u8>>)
    ensures
        match r {
            Some(out) => bz2_unpacked(bytes@) == Some(out@),
            None => bz2_unpacked(bytes@) is None,
        },
{
    let mut out = Vec::new();
    match std::io::Read::read_to_end(&mut bzip2::read::BzDecoder::new(bytes.as_slice()), &mut out) {
        Ok(_) => Some(out),
        Err(_) => None,
    }
}

/// The program that a fetched archive holds.
pub fn extract_restic(bytes: &Vec<u8>) -> (r: Result<Vec<u8>, String>)
    ensures
        match r {
            Ok(program) => bz2_unpacked(bytes@) == Some(program@),
            Err(m) => bz2_unpacked(bytes@) is None && m@ == "Failed to decompress bz2"@,
        },
{
    match unpack_bz2(bytes) {
        Some(program) => Ok(program),
        None => Err("Failed to decompress bz2".to_owned()),
    }
}

/// The argument that asks the program for its version.
pub open spec fn version_args() -> Seq<Seq<char>> {
    seq!["version"@]
}

/// How the answer to the question for the version is read.
pub open spec fn version_outcome(answer: Result<CommandOutputView, CommandErrorView>) -> Result<
    Seq<char>,
    Seq<char>,
> {
    match answer {
        Ok(o) => Ok(trimmed(o.stdout)),
        Err(e) => Err(
            error_text(
                e,
                "Failed to get restic version: "@,
                "Getting restic version timed out"@,
                "Failed to get restic version"@,
            ),
        ),
    }
}

/// The version that the program reports.
pub fn get_restic_version<E: CommandExecutor>(exec: &mut Recorded<E>, restic_cmd: &str) -> (r: Result<
    String,
    String,
>)
    ensures
        asked_for(
            old(exec).history(),
            final(exec).history(),
            plain_call(restic_cmd@, version_args(), None, None),
        ),
        text_view(r) == version_outcome(final(exec).history().last().answer),
{
    let mut args: Vec<String> = Vec::new();
    push_arg(&mut args, "version");
    assert(args.deep_view() =~= version_args());
    match run_plain(exec, restic_cmd, &args, None, None) {
        Ok(o) => Ok(trim(o.stdout.as_str())),
        Err(e) => Err(
            describe_error(
                &e,
                "Failed to get restic version: ",
                "Getting restic version timed out",
                "Failed to get restic version",
            ),
        ),
    }
}

/// The argument that makes the program update itself.
pub open spec fn update_args() -> Seq<Seq<char>> {
    seq!["self-update"@]
}

/// How the answer to an update is read.
pub open spec fn update_outcome(answer: Result<CommandOutputView, CommandErrorView>) -> Result<
    Seq<char>,
    Seq<char>,
> {
    match answer {
        Ok(o) => Ok(trimmed(o.stdout)),
        Err(e) => Err(
            error_text(
                e,
                "Restic self-update failed: "@,
                "Restic self-update timed out"@,
                "Failed to run restic self-update"@,
            ),
        ),
    }
}

/// Makes the program update itself, and hands out what it reported.
pub fn update_restic<E: CommandExecutor>(exec: &mut Recorded<E>, restic_cmd: &str) -> (r: Result<
    String,
    String,
>)
    ensures
        asked_for(
            old(exec).history(),
            final(exec).history(),
            plain_call(restic_cmd@, update_args(), None, None),
        ),
        text_view(r) == update_outcome(final(exec).history().last().answer),
{
    let mut args: Vec<String> = Vec::new();
    push_arg(&mut args, "self-update");
    assert(args.deep_view() =~= update_args());
    match run_plain(exec, restic_cmd, &args, None, None) {
        Ok(o) => Ok(trim(o.stdout.as_str())),
        Err(e) => Err(
            describe_error(
                &e,
                "Restic self-update failed: ",
                "Restic self-update timed out",
                "Failed to run restic self-update",
            ),
        ),
    }
}

} // verus!
