//! The container runtime: listing volumes, archiving them and restoring
//! them.

use crate::text::{
    concat2, concat3, first_field, first_token, lines, lines_of, parse_u64, parsed_u64, same_text,
};
use crate::utils::command::{asked_for, plain_call, run_plain};
use crate::utils::executor::{
    CommandErrorView, CommandExecutor, CommandOutputView, Exchange, Recorded,
};
use crate::utils::host::path_exists;
use crate::utils::paths::{file_name, file_name_spec, parent, parent_spec};
use crate::utils::restic::{
    describe_error, error_text, push_arg, texts_view, unit_view,
};
use vstd::prelude::*;

verus! {

/// The arguments that list the names of the volumes.
pub open spec fn list_args() -> Seq<Seq<char>> {
    seq!["volume"@, "ls"@, "--format"@, "{{.Name}}"@]
}

/// How the answer to a listing of volumes is read: one name a line.
pub open spec fn list_outcome(answer: Result<CommandOutputView, CommandErrorView>) -> Result<
    Seq<Seq<char>>,
    Seq<char>,
> {
    match answer {
        Ok(o) => Ok(lines_of(o.stdout)),
        Err(e) => Err(
            error_text(e, "Command failed: "@, "Command timed out"@, "Failed to execute docker"@),
        ),
    }
}

/// Lists the names of the volumes.
pub fn list_volumes<E: CommandExecutor>(exec: &mut Recorded<E>, timeout_secs: u64) -> (r: Result<
    Vec<String>,
    String,
>)
    ensures
        asked_for(
            old(exec).history(),
            final(exec).history(),
            plain_call("docker"@, list_args(), None, Some(timeout_secs)),
        ),
        texts_view(r) == list_outcome(final(exec).history().last().answer),
{
    let mut args: Vec<String> = Vec::new();
    push_arg(&mut args, "volume");
    push_arg(&mut args, "ls");
    push_arg(&mut args, "--format");
    push_arg(&mut args, "{{.Name}}");
    assert(args.deep_view() =~= list_args());
    match run_plain(exec, "docker", &args, None, Some(timeout_secs)) {
        Ok(o) => Ok(lines(o.stdout.as_str())),
        Err(e) => Err(
            describe_error(&e, "Command failed: ", "Command timed out", "Failed to execute docker"),
        ),
    }
}

/// Whether `name` is one of `names`, character for character.
pub fn is_listed(names: &Vec<String>, name: &str) -> (r: bool)
    ensures
        r == names.deep_view().contains(name@),
{
    let mut i: usize = 0;
    while i < names.len()
        invariant
            i <= names@.len(),
            forall|j: int| 0 <= j < i ==> names.deep_view()[j] != name@,
        decreases names@.len() - i,
    {
        assert(names.deep_view()[i as int] == names@[i as int]@);
        if same_text(names[i].as_str(), name) {
            return true;
        }
        i = i + 1;
    }
    false
}

/// Whether a volume of exactly this name exists.
pub fn volume_exists<E: CommandExecutor>(exec: &mut Recorded<E>, volume_name: &str, timeout_secs: u64) -> (r:
    Result<bool, String>)
    ensures
        asked_for(
            old(exec).history(),
            final(exec).history(),
            plain_call("docker"@, list_args(), None, Some(timeout_secs)),
        ),
        match r {
            Ok(b) => list_outcome(final(exec).history().last().answer) is Ok && b == list_outcome(
                final(exec).history().last().answer,
            )->Ok_0.contains(volume_name@),
            Err(m) => list_outcome(final(exec).history().last().answer) == Err::<
                Seq<Seq<char>>,
                Seq<char>,
            >(m@),
        },
{
    match list_volumes(exec, timeout_secs) {
        Ok(names) => Ok(is_listed(&names, volume_name)),
        Err(m) => Err(m),
    }
}

/// The arguments that pack the volume into the file `file` of the
/// directory `dir`.
pub open spec fn archive_args(volume: Seq<char>, dir: Seq<char>, file: Seq<char>) -> Seq<Seq<char>> {
    seq![
        "run"@,
        "--rm"@,
        "-v"@,
        volume + ":/data"@,
        "-v"@,
        dir + ":/backup"@,
        "alpine"@,
        "tar"@,
        "czf"@,
        "/backup/"@ + file,
        "-C"@,
        "/data"@,
        "."@,
    ]
}

/// The arguments that unpack the file `file` of the directory `dir` into
/// the volume.
pub open spec fn restore_args(volume: Seq<char>, dir: Seq<char>, file: Seq<char>) -> Seq<Seq<char>> {
    seq![
        "run"@,
        "--rm"@,
        "-v"@,
        volume + ":/data"@,
        "-v"@,
        dir + ":/backup"@,
        "alpine"@,
        "tar"@,
        "xzf"@,
        "/backup/"@ + file,
        "-C"@,
        "/data"@,
    ]
}

/// How the answer to packing a volume is read.
pub open spec fn archive_outcome(
    volume: Seq<char>,
    answer: Result<CommandOutputView, CommandErrorView>,
) -> Result<(), Seq<char>> {
    match answer {
        Ok(_) => Ok(()),
        Err(e) => Err(
            error_text(
                e,
                "Failed to archive volume "@ + volume + ": "@,
                "Volume archiving timed out"@,
                "Failed to execute docker run"@,
            ),
        ),
    }
}

/// How the answer to unpacking a volume is read.
pub open spec fn restore_outcome(
    volume: Seq<char>,
    answer: Result<CommandOutputView, CommandErrorView>,
) -> Result<(), Seq<char>> {
    match answer {
        Ok(_) => Ok(()),
        Err(e) => Err(
            error_text(
                e,
                "Failed to restore volume "@ + volume + ": "@,
                "Volume restoration timed out"@,
                "Failed to execute docker run"@,
            ),
        ),
    }
}

/// The arguments common to packing and unpacking, up to the mode of `tar`.
fn mount_args(volume: &str, dir: &str, file: &str, mode: &str) -> (r: Vec<String>)
    ensures
        r.deep_view() == seq![
            "run"@,
            "--rm"@,
            "-v"@,
            volume@ + ":/data"@,
            "-v"@,
            dir@ + ":/backup"@,
            "alpine"@,
            "tar"@,
            mode@,
            "/backup/"@ + file@,
            "-C"@,
            "/data"@,
        ],
{
    let mut args: Vec<String> = Vec::new();
    push_arg(&mut args, "run");
    push_arg(&mut args, "--rm");
    push_arg(&mut args, "-v");
    push_arg(&mut args, concat2(volume, ":/data").as_str());
    push_arg(&mut args, "-v");
    push_arg(&mut args, concat2(dir, ":/backup").as_str());
    push_arg(&mut args, "alpine");
    push_arg(&mut args, "tar");
    push_arg(&mut args, mode);
    push_arg(&mut args, concat2("/backup/", file).as_str());
    push_arg(&mut args, "-C");
    push_arg(&mut args, "/data");
    assert(args.deep_view() =~= seq![
        "run"@,
        "--rm"@,
        "-v"@,
        volume@ + ":/data"@,
        "-v"@,
        dir@ + ":/backup"@,
        "alpine"@,
        "tar"@,
        mode@,
        "/backup/"@ + file@,
        "-C"@,
        "/data"@,
    ]);
    args
}

/// Packs a volume into the file at `output_path`, through a short-lived
/// container that mounts the volume and the file's directory. A path that
/// names no file is refused, and nothing is run.
pub fn archive_volume<E: CommandExecutor>(
    exec: &mut Recorded<E>,
    volume_name: &str,
    output_path: &str,
    timeout_secs: u64,
) -> (r: Result<(), String>)
    ensures
        match file_name_spec(output_path@) {
            None => final(exec).history() == old(exec).history() && unit_view(r) == Err::<
                (),
                Seq<char>,
            >("Invalid output path"@),
            Some(file) => asked_for(
                old(exec).history(),
                final(exec).history(),
                plain_call(
                    "docker"@,
                    archive_args(volume_name@, parent_spec(output_path@), file),
                    None,
                    Some(timeout_secs),
                ),
            ) && unit_view(r) == archive_outcome(
                volume_name@,
                final(exec).history().last().answer,
            ),
        },
{
    let file = match file_name(output_path) {
        Some(f) => f,
        None => {
            return Err("Invalid output path".to_owned());
        },
    };
    let dir = parent(output_path);
    let mut args = mount_args(volume_name, dir.as_str(), file.as_str(), "czf");
    push_arg(&mut args, ".");
    assert(args.deep_view() =~= archive_args(volume_name@, dir@, file@));
    match run_plain(exec, "docker", &args, None, Some(timeout_secs)) {
        Ok(_) => Ok(()),
        Err(e) => Err(
            describe_error(
                &e,
                concat3("Failed to archive volume ", volume_name, ": ").as_str(),
                "Volume archiving timed out",
                "Failed to execute docker run",
            ),
        ),
    }
}

/// What restoring a volume comes to, given whether the archive is there:
/// without the archive, or with a path that names no file, nothing is run.
pub open spec fn restore_refusal(archive_path: Seq<char>, archive_exists: bool) -> Option<Seq<char>> {
    if !archive_exists {
        Some("Archive file does not exist: "@ + archive_path)
    } else if file_name_spec(archive_path) is None {
        Some("Invalid archive path"@)
    } else {
        None
    }
}

/// What restoring a volume does and returns, given whether the archive is
/// there. Where it is refused, nothing is asked of the executor and the
/// refusal is the error; else the unpacking is the one thing asked, and its
/// answer decides the result.
pub open spec fn restored(
    before: Seq<Exchange>,
    after: Seq<Exchange>,
    volume: Seq<char>,
    archive_path: Seq<char>,
    archive_exists: bool,
    timeout_secs: u64,
    r: Result<(), Seq<char>>,
) -> bool {
    match restore_refusal(archive_path, archive_exists) {
        Some(m) => after == before && r == Err::<(), Seq<char>>(m),
        None => asked_for(
            before,
            after,
            plain_call(
                "docker"@,
                restore_args(volume, parent_spec(archive_path), file_name_spec(archive_path)->0),
                None,
                Some(timeout_secs),
            ),
        ) && r == restore_outcome(volume, after.last().answer),
    }
}

/// Unpacks the archive into the volume, the archive being there or not as
/// `archive_exists` says.
pub fn restore_volume_from<E: CommandExecutor>(
    exec: &mut Recorded<E>,
    volume_name: &str,
    archive_path: &str,
    archive_exists: bool,
    timeout_secs: u64,
) -> (r: Result<(), String>)
    ensures
        restored(
            old(exec).history(),
            final(exec).history(),
            volume_name@,
            archive_path@,
            archive_exists,
            timeout_secs,
            unit_view(r),
        ),
{
    if !archive_exists {
        return Err(concat2("Archive file does not exist: ", archive_path));
    }
    let file = match file_name(archive_path) {
        Some(f) => f,
        None => {
            return Err("Invalid archive path".to_owned());
        },
    };
    let dir = parent(archive_path);
    let args = mount_args(volume_name, dir.as_str(), file.as_str(), "xzf");
    assert(args.deep_view() =~= restore_args(volume_name@, dir@, file@));
    match run_plain(exec, "docker", &args, None, Some(timeout_secs)) {
        Ok(_) => Ok(()),
        Err(e) => Err(
            describe_error(
                &e,
                concat3("Failed to restore volume ", volume_name, ": ").as_str(),
                "Volume restoration timed out",
                "Failed to execute docker run",
            ),
        ),
    }
}

/// Unpacks the archive at `archive_path` into the volume, after looking
/// whether the archive is there.
pub fn restore_volume<E: CommandExecutor>(
    exec: &mut Recorded<E>,
    volume_name: &str,
    archive_path: &str,
    timeout_secs: u64,
) -> (r: Result<(), String>)
    ensures
        exists|archive_exists: bool|
            restored(
                old(exec).history(),
                final(exec).history(),
                volume_name@,
                archive_path@,
                archive_exists,
                timeout_secs,
                unit_view(r),
            ),
{
    let archive_exists = path_exists(archive_path);
    restore_volume_from(exec, volume_name, archive_path, archive_exists, timeout_secs)
}

/// The arguments that measure a volume.
pub open spec fn size_args(volume: Seq<char>) -> Seq<Seq<char>> {
    seq!["run"@, "--rm"@, "-v"@, volume + ":/data"@, "alpine"@, "du"@, "-sb"@, "/data"@]
}

/// The size that the measuring wrote: the number in the first field.
pub open spec fn size_from(stdout: Seq<char>) -> Result<u64, Seq<char>> {
    match first_field(stdout) {
        None => Err("Failed to parse volume size"@),
        Some(field) => match parsed_u64(field) {
            Some(n) => Ok(n),
            None => Err("Failed to parse volume size as number"@),
        },
    }
}

/// How the answer to measuring a volume is read.
pub open spec fn size_outcome(answer: Result<CommandOutputView, CommandErrorView>) -> Result<
    u64,
    Seq<char>,
> {
    match answer {
        Ok(o) => size_from(o.stdout),
        Err(e) => Err(
            error_text(e, "Command failed: "@, "Command timed out"@, "Failed to execute docker"@),
        ),
    }
}

/// The size that the measuring wrote.
pub fn read_size(stdout: &str) -> (r: Result<u64, String>)
    ensures
        match r {
            Ok(n) => size_from(stdout@) == Ok::<u64, Seq<char>>(n),
            Err(m) => size_from(stdout@) == Err::<u64, Seq<char>>(m@),
        },
{
    match first_token(stdout) {
        None => Err("Failed to parse volume size".to_owned()),
        Some(field) => match parse_u64(field.as_str()) {
            Some(n) => Ok(n),
            None => Err("Failed to parse volume size as number".to_owned()),
        },
    }
}

/// The size of a volume in bytes.
pub fn get_volume_size<E: CommandExecutor>(exec: &mut Recorded<E>, volume_name: &str, timeout_secs: u64) -> (r:
    Result<u64, String>)
    ensures
        asked_for(
            old(exec).history(),
            final(exec).history(),
            plain_call("docker"@, size_args(volume_name@), None, Some(timeout_secs)),
        ),
        match r {
            Ok(n) => size_outcome(final(exec).history().last().answer) == Ok::<u64, Seq<char>>(n),
            Err(m) => size_outcome(final(exec).history().last().answer) == Err::<u64, Seq<char>>(
                m@,
            ),
        },
{
    let mut args: Vec<String> = Vec::new();
    push_arg(&mut args, "run");
    push_arg(&mut args, "--rm");
    push_arg(&mut args, "-v");
    push_arg(&mut args, concat2(volume_name, ":/data").as_str());
    push_arg(&mut args, "alpine");
    push_arg(&mut args, "du");
    push_arg(&mut args, "-sb");
    push_arg(&mut args, "/data");
    assert(args.deep_view() =~= size_args(volume_name@));
    match run_plain(exec, "docker", &args, None, Some(timeout_secs)) {
        Ok(o) => read_size(o.stdout.as_str()),
        Err(e) => Err(
            describe_error(&e, "Command failed: ", "Command timed out", "Failed to execute docker"),
        ),
    }
}

} // verus!
