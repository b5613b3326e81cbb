//! The backup tool: where a repository lives, what the tool is told, and how
//! its answers are read.

use crate::config::types::{Destination, DestinationView, RetentionPolicy};
use crate::name_map::{with_entry, NameMap};
use crate::text::{
    concat2, concat3, contains, decimal, decimal_text, find_char, has_sub, lemma_find_char, lines,
    lines_of, position_of_char, to_chars, trim, trimmed,
};
use crate::utils::command::asked_for;
use crate::utils::executor::{
    answer_view, CommandError, CommandErrorView, CommandExecutor, CommandOutput,
    CommandOutputView, CommandView, Recorded,
};
use crate::utils::json::{
    items_of, json_document, json_items, json_member, json_text, member_of, parse_document,
    text_of,
};
use crate::utils::paths::ends_in_separator;
use crate::utils::time::{parse_rfc3339, rfc3339_seconds};
use vstd::prelude::*;

verus! {

/// The environment that the backup tool runs in.
pub struct ResticEnv {
    vars: NameMap<String>,
}

impl View for ResticEnv {
    type V = Seq<(Seq<char>, Seq<char>)>;

    closed spec fn view(&self) -> Seq<(Seq<char>, Seq<char>)> {
        self.vars.deep_view()
    }
}

impl ResticEnv {
    /// The environment that names the password file and the repository.
    pub fn new(password_file: &str, repository_url: &str) -> (r: Self)
        ensures
            r@ == seq![
                ("RESTIC_PASSWORD_FILE"@, password_file@),
                ("RESTIC_REPOSITORY"@, repository_url@),
            ],
    {
        let mut vars: NameMap<String> = NameMap::new();
        vars.push_entry("RESTIC_PASSWORD_FILE".to_owned(), password_file.to_owned());
        vars.push_entry("RESTIC_REPOSITORY".to_owned(), repository_url.to_owned());
        let r = ResticEnv { vars };
        assert(r@ =~= seq![
            ("RESTIC_PASSWORD_FILE"@, password_file@),
            ("RESTIC_REPOSITORY"@, repository_url@),
        ]);
        r
    }

    /// Sets a variable, in place of the value that it had.
    pub fn add(&mut self, key: String, value: String)
        ensures
            final(self)@ == with_entry(old(self)@, key@, value@),
    {
        self.vars.put(key, value);
    }

    /// The variables, in the order in which they were first set.
    pub fn vars(&self) -> (r: &NameMap<String>)
        ensures
            r.deep_view() == self@,
    {
        &self.vars
    }
}

/// The repository of a service at a destination: the destination's URL, a
/// separator unless the URL ends in one, the service's name and the suffix.
pub open spec fn repository_url_spec(
    destination: DestinationView,
    service_name: Seq<char>,
    suffix: Option<Seq<char>>,
) -> Seq<char> {
    let repo_name = match suffix {
        Some(s) => service_name + s,
        None => service_name,
    };
    if destination.url.len() > 0 && destination.url.last() == '/' {
        destination.url + repo_name
    } else {
        destination.url + "/"@ + repo_name
    }
}

/// The repository of a service at a destination.
pub fn build_repository_url(destination: &Destination, service_name: &str, suffix: Option<&str>) -> (r:
    String)
    ensures
        r@ == repository_url_spec(destination@, service_name@, suffix.deep_view()),
{
    let repo_name = match suffix {
        Some(s) => concat2(service_name, s),
        None => service_name.to_owned(),
    };
    if ends_in_separator(destination.url.as_str()) {
        concat2(destination.url.as_str(), repo_name.as_str())
    } else {
        concat3(destination.url.as_str(), "/", repo_name.as_str())
    }
}

/// One snapshot of a repository.
#[derive(Debug)]
pub struct Snapshot {
    pub id: String,
    pub short_id: String,
    pub time: String,
    pub hostname: String,
    pub paths: Vec<String>,
}

/// What a [`Snapshot`] holds, as a value of specifications.
pub struct SnapshotView {
    pub id: Seq<char>,
    pub short_id: Seq<char>,
    pub time: Seq<char>,
    pub hostname: Seq<char>,
    pub paths: Seq<Seq<char>>,
}

impl View for Snapshot {
    type V = SnapshotView;

    open spec fn view(&self) -> SnapshotView {
        SnapshotView {
            id: self.id@,
            short_id: self.short_id@,
            time: self.time@,
            hostname: self.hostname@,
            paths: self.paths.deep_view(),
        }
    }
}

impl DeepView for Snapshot {
    type V = SnapshotView;

    open spec fn deep_view(&self) -> SnapshotView {
        self@
    }
}

impl Clone for Snapshot {
    fn clone(&self) -> (r: Self)
        ensures
            r@ == self@,
    {
        let paths = self.paths.clone();
        assert(paths.deep_view() =~= self.paths.deep_view());
        Snapshot {
            id: self.id.clone(),
            short_id: self.short_id.clone(),
            time: self.time.clone(),
            hostname: self.hostname.clone(),
            paths,
        }
    }
}

/// The backup tool run with `args` in the environment `env`, for at most
/// `timeout_secs` seconds.
pub open spec fn restic_call(
    restic_bin: Seq<char>,
    args: Seq<Seq<char>>,
    env: Seq<(Seq<char>, Seq<char>)>,
    timeout_secs: u64,
) -> CommandView {
    CommandView {
        program: restic_bin,
        args: args,
        env: env,
        working_dir: None,
        timeout_secs: Some(timeout_secs),
    }
}

/// Runs the backup tool.
pub fn run_restic<E: CommandExecutor>(
    exec: &mut Recorded<E>,
    restic_bin: &str,
    args: &Vec<String>,
    env: &ResticEnv,
    timeout_secs: u64,
) -> (r: Result<CommandOutput, CommandError>)
    ensures
        asked_for(
            old(exec).history(),
            final(exec).history(),
            restic_call(restic_bin@, args.deep_view(), env@, timeout_secs),
        ),
        final(exec).history().last().answer == answer_view(r),
{
    let ghost before = exec.history();
    let r = exec.run_command(restic_bin, args, env.vars(), None, Some(timeout_secs));
    assert(exec.history().drop_last() =~= before);
    r
}

/// The text for a command that did not end with success: `failed` followed
/// by what the command wrote to its error stream, or `timed_out`, or
/// `not_started` followed by a colon and the reason.
pub open spec fn error_text(
    e: CommandErrorView,
    failed: Seq<char>,
    timed_out: Seq<char>,
    not_started: Seq<char>,
) -> Seq<char> {
    match e {
        CommandErrorView::Failed { exit_code, stdout, stderr } => failed + stderr,
        CommandErrorView::TimedOut => timed_out,
        CommandErrorView::NotStarted(m) => not_started + ": "@ + m,
    }
}

/// The text for a command that did not end with success.
pub fn describe_error(e: &CommandError, failed: &str, timed_out: &str, not_started: &str) -> (r:
    String)
    ensures
        r@ == error_text(e@, failed@, timed_out@, not_started@),
{
    match e {
        CommandError::Failed { exit_code, stdout, stderr } => concat2(failed, stderr.as_str()),
        CommandError::TimedOut => timed_out.to_owned(),
        CommandError::NotStarted(m) => concat3(not_started, ": ", m.as_str()),
    }
}

/// A result without a value, as a value of specifications.
pub open spec fn unit_view(r: Result<(), String>) -> Result<(), Seq<char>> {
    match r {
        Ok(_) => Ok(()),
        Err(m) => Err(m@),
    }
}

/// A text or an error, as a value of specifications.
pub open spec fn text_view(r: Result<String, String>) -> Result<Seq<char>, Seq<char>> {
    match r {
        Ok(t) => Ok(t@),
        Err(m) => Err(m@),
    }
}

/// Texts or an error, as a value of specifications.
pub open spec fn texts_view(r: Result<Vec<String>, String>) -> Result<Seq<Seq<char>>, Seq<char>> {
    match r {
        Ok(t) => Ok(t.deep_view()),
        Err(m) => Err(m@),
    }
}

/// Snapshots or an error, as a value of specifications.
pub open spec fn snapshots_view(r: Result<Vec<Snapshot>, String>) -> Result<
    Seq<SnapshotView>,
    Seq<char>,
> {
    match r {
        Ok(t) => Ok(t.deep_view()),
        Err(m) => Err(m@),
    }
}

/// The argument that initialises a repository.
pub open spec fn init_args() -> Seq<Seq<char>> {
    seq!["init"@]
}

/// How the answer to an initialisation is read: a repository that is there
/// already is as good as one that was made.
pub open spec fn init_outcome(answer: Result<CommandOutputView, CommandErrorView>) -> Result<
    (),
    Seq<char>,
> {
    match answer {
        Ok(_) => Ok(()),
        Err(e) => match e {
            CommandErrorView::Failed { exit_code, stdout, stderr } => if has_sub(
                stderr,
                "already initialized"@,
            ) || has_sub(stderr, "already exists"@) {
                Ok(())
            } else {
                Err("Failed to initialize repository: "@ + stderr)
            },
            CommandErrorView::TimedOut => Err("Repository initialization timed out"@),
            CommandErrorView::NotStarted(m) => Err("Failed to execute restic init: "@ + m),
        },
    }
}

/// Reads the answer to an initialisation.
pub fn read_init(answer: &Result<CommandOutput, CommandError>) -> (r: Result<(), String>)
    ensures
        unit_view(r) == init_outcome(answer_view(*answer)),
{
    match answer {
        Ok(_) => Ok(()),
        Err(e) => match e {
            CommandError::Failed { exit_code, stdout, stderr } => if contains(
                stderr.as_str(),
                "already initialized",
            ) || contains(stderr.as_str(), "already exists") {
                Ok(())
            } else {
                Err(concat2("Failed to initialize repository: ", stderr.as_str()))
            },
            CommandError::TimedOut => Err("Repository initialization timed out".to_owned()),
            CommandError::NotStarted(m) => Err(
                concat2("Failed to execute restic init: ", m.as_str()),
            ),
        },
    }
}

/// Initialises the repository unless it is there already.
pub fn init_repository<E: CommandExecutor>(
    exec: &mut Recorded<E>,
    restic_bin: &str,
    env: &ResticEnv,
    timeout_secs: u64,
) -> (r: Result<(), String>)
    ensures
        asked_for(
            old(exec).history(),
            final(exec).history(),
            restic_call(restic_bin@, init_args(), env@, timeout_secs),
        ),
        unit_view(r) == init_outcome(final(exec).history().last().answer),
{
    let mut args: Vec<String> = Vec::new();
    args.push("init".to_owned());
    assert(args.deep_view() =~= init_args());
    let answer = run_restic(exec, restic_bin, &args, env, timeout_secs);
    read_init(&answer)
}

/// `flag` before each of the first `n` of `values`.
pub open spec fn flagged(flag: Seq<char>, values: Seq<Seq<char>>, n: int) -> Seq<Seq<char>>
    decreases n,
{
    if n <= 0 || n > values.len() {
        Seq::empty()
    } else {
        flagged(flag, values, n - 1).push(flag).push(values[n - 1])
    }
}

/// The arguments of a transfer: the paths, each exclusion pattern behind
/// its flag, and the flag that leaves cache directories out.
pub open spec fn backup_args(paths: Seq<Seq<char>>, excludes: Seq<Seq<char>>) -> Seq<Seq<char>> {
    seq!["backup"@] + paths + flagged("--exclude"@, excludes, excludes.len() as int)
        + seq!["--exclude-caches"@]
}

/// Appends `flag` and a value, for each of `values`, to `args`.
pub fn push_flagged(args: &mut Vec<String>, flag: &str, values: &Vec<String>)
    ensures
        final(args).deep_view() == old(args).deep_view() + flagged(
            flag@,
            values.deep_view(),
            values@.len() as int,
        ),
{
    let ghost start = args.deep_view();
    let mut i: usize = 0;
    assert(args.deep_view() =~= start + flagged(flag@, values.deep_view(), 0));
    while i < values.len()
        invariant
            i <= values@.len(),
            args.deep_view() == start + flagged(flag@, values.deep_view(), i as int),
        decreases values@.len() - i,
    {
        let ghost before = args.deep_view();
        args.push(flag.to_owned());
        args.push(values[i].clone());
        assert(args.deep_view() =~= before.push(flag@).push(values@[i as int]@));
        assert(args.deep_view() =~= start + flagged(flag@, values.deep_view(), i + 1));
        i = i + 1;
    }
}

/// Appends copies of `values` to `args`.
pub fn push_all(args: &mut Vec<String>, values: &Vec<String>)
    ensures
        final(args).deep_view() == old(args).deep_view() + values.deep_view(),
{
    let ghost start = args.deep_view();
    let mut i: usize = 0;
    assert(args.deep_view() =~= start + values.deep_view().subrange(0, 0));
    while i < values.len()
        invariant
            i <= values@.len(),
            args.deep_view() == start + values.deep_view().subrange(0, i as int),
        decreases values@.len() - i,
    {
        let ghost before = args.deep_view();
        args.push(values[i].clone());
        assert(args.deep_view() =~= before.push(values@[i as int]@));
        assert(args.deep_view() =~= start + values.deep_view().subrange(0, i + 1));
        i = i + 1;
    }
    assert(values.deep_view().subrange(0, values@.len() as int) =~= values.deep_view());
}

/// Appends the text `s` to `args`.
pub fn push_arg(args: &mut Vec<String>, s: &str)
    ensures
        final(args).deep_view() == old(args).deep_view().push(s@),
{
    let ghost before = args.deep_view();
    args.push(s.to_owned());
    assert(args.deep_view() =~= before.push(s@));
}

/// How the answer to a transfer is read.
pub open spec fn backup_outcome(answer: Result<CommandOutputView, CommandErrorView>) -> Result<
    (),
    Seq<char>,
> {
    match answer {
        Ok(_) => Ok(()),
        Err(e) => Err(
            error_text(
                e,
                "Backup failed: "@,
                "Backup timed out"@,
                "Failed to execute restic backup"@,
            ),
        ),
    }
}

/// Reads the answer to a transfer.
pub fn read_backup(answer: &Result<CommandOutput, CommandError>) -> (r: Result<(), String>)
    ensures
        unit_view(r) == backup_outcome(answer_view(*answer)),
{
    match answer {
        Ok(_) => Ok(()),
        Err(e) => Err(
            describe_error(
                e,
                "Backup failed: ",
                "Backup timed out",
                "Failed to execute restic backup",
            ),
        ),
    }
}

/// Transfers `paths` into the repository. Without a path nothing is run,
/// and the transfer counts as done.
pub fn backup<E: CommandExecutor>(
    exec: &mut Recorded<E>,
    restic_bin: &str,
    env: &ResticEnv,
    paths: &Vec<String>,
    excludes: &Vec<String>,
    timeout_secs: u64,
) -> (r: Result<(), String>)
    ensures
        paths@.len() == 0 ==> r is Ok && final(exec).history() == old(exec).history(),
        paths@.len() > 0 ==> asked_for(
            old(exec).history(),
            final(exec).history(),
            restic_call(
                restic_bin@,
                backup_args(paths.deep_view(), excludes.deep_view()),
                env@,
                timeout_secs,
            ),
        ) && unit_view(r) == backup_outcome(final(exec).history().last().answer),
{
    if paths.len() == 0 {
        return Ok(());
    }
    let mut args: Vec<String> = Vec::new();
    push_arg(&mut args, "backup");
    push_all(&mut args, paths);
    push_flagged(&mut args, "--exclude", excludes);
    push_arg(&mut args, "--exclude-caches");
    assert(args.deep_view() =~= backup_args(paths.deep_view(), excludes.deep_view()));
    let answer = run_restic(exec, restic_bin, &args, env, timeout_secs);
    read_backup(&answer)
}

/// The arguments that prune a repository down to the keep-counts.
pub open spec fn retention_args(retention: RetentionPolicy) -> Seq<Seq<char>> {
    seq![
        "forget"@,
        "--prune"@,
        "--keep-daily"@,
        decimal(retention.daily as nat),
        "--keep-weekly"@,
        decimal(retention.weekly as nat),
        "--keep-monthly"@,
        decimal(retention.monthly as nat),
        "--keep-yearly"@,
        decimal(retention.yearly as nat),
    ]
}

/// How the answer to a command is read whose failure is passed over: only
/// a command that could not be run, or ran out of time, is an error.
pub open spec fn soft_outcome(
    answer: Result<CommandOutputView, CommandErrorView>,
    timed_out: Seq<char>,
    not_started: Seq<char>,
) -> Result<(), Seq<char>> {
    match answer {
        Ok(_) => Ok(()),
        Err(e) => match e {
            CommandErrorView::Failed { exit_code, stdout, stderr } => Ok(()),
            _ => Err(error_text(e, Seq::empty(), timed_out, not_started)),
        },
    }
}

/// Reads the answer to a command whose failure is passed over.
pub fn read_soft(answer: &Result<CommandOutput, CommandError>, timed_out: &str, not_started: &str) -> (r:
    Result<(), String>)
    ensures
        unit_view(r) == soft_outcome(answer_view(*answer), timed_out@, not_started@),
{
    match answer {
        Ok(_) => Ok(()),
        Err(e) => match e {
            CommandError::Failed { exit_code, stdout, stderr } => Ok(()),
            _ => Err(describe_error(e, "", timed_out, not_started)),
        },
    }
}

/// Prunes the repository down to the keep-counts. A prune that fails is
/// passed over.
pub fn apply_retention<E: CommandExecutor>(
    exec: &mut Recorded<E>,
    restic_bin: &str,
    env: &ResticEnv,
    retention: &RetentionPolicy,
    timeout_secs: u64,
) -> (r: Result<(), String>)
    ensures
        asked_for(
            old(exec).history(),
            final(exec).history(),
            restic_call(restic_bin@, retention_args(*retention), env@, timeout_secs),
        ),
        unit_view(r) == soft_outcome(
            final(exec).history().last().answer,
            "Retention policy application timed out"@,
            "Failed to execute restic forget"@,
        ),
{
    let mut args: Vec<String> = Vec::new();
    push_arg(&mut args, "forget");
    push_arg(&mut args, "--prune");
    push_arg(&mut args, "--keep-daily");
    push_arg(&mut args, decimal_text(retention.daily as u64).as_str());
    push_arg(&mut args, "--keep-weekly");
    push_arg(&mut args, decimal_text(retention.weekly as u64).as_str());
    push_arg(&mut args, "--keep-monthly");
    push_arg(&mut args, decimal_text(retention.monthly as u64).as_str());
    push_arg(&mut args, "--keep-yearly");
    push_arg(&mut args, decimal_text(retention.yearly as u64).as_str());
    assert(args.deep_view() =~= retention_args(*retention));
    let answer = run_restic(exec, restic_bin, &args, env, timeout_secs);
    read_soft(&answer, "Retention policy application timed out", "Failed to execute restic forget")
}

/// The argument that clears stale locks.
pub open spec fn unlock_args() -> Seq<Seq<char>> {
    seq!["unlock"@]
}

/// Clears stale locks on the repository. An unlock that fails is passed
/// over: the repository may not have been locked.
pub fn unlock_repository<E: CommandExecutor>(
    exec: &mut Recorded<E>,
    restic_bin: &str,
    env: &ResticEnv,
    timeout_secs: u64,
) -> (r: Result<(), String>)
    ensures
        asked_for(
            old(exec).history(),
            final(exec).history(),
            restic_call(restic_bin@, unlock_args(), env@, timeout_secs),
        ),
        unit_view(r) == soft_outcome(
            final(exec).history().last().answer,
            "Unlock timed out"@,
            "Failed to execute restic unlock"@,
        ),
{
    let mut args: Vec<String> = Vec::new();
    push_arg(&mut args, "unlock");
    assert(args.deep_view() =~= unlock_args());
    let answer = run_restic(exec, restic_bin, &args, env, timeout_secs);
    read_soft(&answer, "Unlock timed out", "Failed to execute restic unlock")
}

/// The text of a member, or no text where the member is missing or is no
/// string.
pub open spec fn member_text(value: serde_json::Value, key: Seq<char>) -> Seq<char> {
    match json_member(value, key) {
        Some(m) => match json_text(m) {
            Some(t) => t,
            None => Seq::empty(),
        },
        None => Seq::empty(),
    }
}

/// The texts of those of the first `n` items that are strings.
pub open spec fn texts_before(items: Seq<serde_json::Value>, n: int) -> Seq<Seq<char>>
    decreases n,
{
    if n <= 0 || n > items.len() {
        Seq::empty()
    } else {
        match json_text(items[n - 1]) {
            Some(t) => texts_before(items, n - 1).push(t),
            None => texts_before(items, n - 1),
        }
    }
}

/// The snapshot that one item of a listing describes.
pub open spec fn snapshot_from(value: serde_json::Value) -> SnapshotView {
    SnapshotView {
        id: member_text(value, "id"@),
        short_id: member_text(value, "short_id"@),
        time: member_text(value, "time"@),
        hostname: member_text(value, "hostname"@),
        paths: match json_member(value, "paths"@) {
            Some(p) => match json_items(p) {
                Some(items) => texts_before(items, items.len() as int),
                None => Seq::empty(),
            },
            None => Seq::empty(),
        },
    }
}

/// The snapshots that a listing describes; `None` for a document that is no
/// array.
pub open spec fn snapshots_from(document: serde_json::Value) -> Option<Seq<SnapshotView>> {
    match json_items(document) {
        Some(items) => Some(Seq::new(items.len(), |i: int| snapshot_from(items[i]))),
        None => None,
    }
}

/// The snapshots that the text of a listing describes.
pub open spec fn parsed_snapshots(text: Seq<char>) -> Option<Seq<SnapshotView>> {
    match json_document(text) {
        Some(d) => snapshots_from(d),
        None => None,
    }
}

/// The text of a member.
fn read_member_text(value: &serde_json::Value, key: &str) -> (r: String)
    ensures
        r@ == member_text(*value, key@),
{
    match member_of(value, key) {
        Some(m) => match text_of(m) {
            Some(t) => t.to_owned(),
            None => String::new(),
        },
        None => String::new(),
    }
}

/// The snapshot that one item of a listing describes.
pub fn read_snapshot(value: &serde_json::Value) -> (r: Snapshot)
    ensures
        r@ == snapshot_from(*value),
{
    let mut paths: Vec<String> = Vec::new();
    assert(paths.deep_view() =~= Seq::<Seq<char>>::empty());
    if let Some(p) = member_of(value, "paths") {
        if let Some(items) = items_of(p) {
            let mut i: usize = 0;
            while i < items.len()
                invariant
                    i <= items@.len(),
                    paths.deep_view() == texts_before(items@, i as int),
                decreases items@.len() - i,
            {
                if let Some(t) = text_of(&items[i]) {
                    let ghost before = paths.deep_view();
                    paths.push(t.to_owned());
                    assert(paths.deep_view() =~= before.push(t@));
                }
                i = i + 1;
            }
        }
    }
    Snapshot {
        id: read_member_text(value, "id"),
        short_id: read_member_text(value, "short_id"),
        time: read_member_text(value, "time"),
        hostname: read_member_text(value, "hostname"),
        paths,
    }
}

/// The snapshots that a listing describes.
pub fn read_snapshots(document: &serde_json::Value) -> (r: Option<Vec<Snapshot>>)
    ensures
        r.deep_view() == snapshots_from(*document),
{
    match items_of(document) {
        Some(items) => {
            let mut r: Vec<Snapshot> = Vec::new();
            let mut i: usize = 0;
            while i < items.len()
                invariant
                    i <= items@.len(),
                    r@.len() == i,
                    forall|j: int| 0 <= j < i ==> (#[trigger] r@[j])@ == snapshot_from(items@[j]),
                decreases items@.len() - i,
            {
                r.push(read_snapshot(&items[i]));
                i = i + 1;
            }
            assert(r.deep_view() =~= Seq::new(items@.len(), |i: int| snapshot_from(items@[i])));
            Some(r)
        },
        None => None,
    }
}

/// The snapshots that the text of a listing describes.
pub fn parse_snapshots(text: &str) -> (r: Option<Vec<Snapshot>>)
    ensures
        r.deep_view() == parsed_snapshots(text@),
{
    match parse_document(text) {
        Some(d) => read_snapshots(&d),
        None => None,
    }
}

/// The arguments that list the snapshots.
pub open spec fn snapshots_args() -> Seq<Seq<char>> {
    seq!["snapshots"@, "--json"@]
}

/// How the answer to a listing is read.
pub open spec fn snapshots_outcome(answer: Result<CommandOutputView, CommandErrorView>) -> Result<
    Seq<SnapshotView>,
    Seq<char>,
> {
    match answer {
        Ok(o) => match parsed_snapshots(o.stdout) {
            Some(s) => Ok(s),
            None => Err("Failed to parse snapshots JSON"@),
        },
        Err(e) => Err(
            error_text(
                e,
                "Failed to list snapshots: "@,
                "Listing snapshots timed out"@,
                "Failed to execute restic snapshots"@,
            ),
        ),
    }
}

/// Lists the snapshots of the repository, in the order of the listing.
pub fn list_snapshots<E: CommandExecutor>(
    exec: &mut Recorded<E>,
    restic_bin: &str,
    env: &ResticEnv,
    timeout_secs: u64,
) -> (r: Result<Vec<Snapshot>, String>)
    ensures
        asked_for(
            old(exec).history(),
            final(exec).history(),
            restic_call(restic_bin@, snapshots_args(), env@, timeout_secs),
        ),
        snapshots_view(r) == snapshots_outcome(final(exec).history().last().answer),
{
    let mut args: Vec<String> = Vec::new();
    push_arg(&mut args, "snapshots");
    push_arg(&mut args, "--json");
    assert(args.deep_view() =~= snapshots_args());
    match run_restic(exec, restic_bin, &args, env, timeout_secs) {
        Ok(o) => match parse_snapshots(o.stdout.as_str()) {
            Some(s) => Ok(s),
            None => Err("Failed to parse snapshots JSON".to_owned()),
        },
        Err(e) => Err(
            describe_error(
                &e,
                "Failed to list snapshots: ",
                "Listing snapshots timed out",
                "Failed to execute restic snapshots",
            ),
        ),
    }
}

/// The number of snapshots of the repository.
pub fn count_snapshots<E: CommandExecutor>(
    exec: &mut Recorded<E>,
    restic_bin: &str,
    env: &ResticEnv,
    timeout_secs: u64,
) -> (r: Result<usize, String>)
    ensures
        asked_for(
            old(exec).history(),
            final(exec).history(),
            restic_call(restic_bin@, snapshots_args(), env@, timeout_secs),
        ),
        match r {
            Ok(n) => snapshots_outcome(final(exec).history().last().answer) is Ok && n
                == snapshots_outcome(final(exec).history().last().answer)->Ok_0.len(),
            Err(m) => snapshots_outcome(final(exec).history().last().answer) == Err::<
                Seq<SnapshotView>,
                Seq<char>,
            >(m@),
        },
{
    match list_snapshots(exec, restic_bin, env, timeout_secs) {
        Ok(s) => Ok(s.len()),
        Err(m) => Err(m),
    }
}

/// Whether a snapshot taken at `a` is at least as late as one taken at
/// `b`. A time that cannot be read counts as earlier than any that can.
pub open spec fn at_least_as_late(a: Option<i64>, b: Option<i64>) -> bool {
    match (a, b) {
        (Some(x), Some(y)) => x >= y,
        (Some(_), None) => true,
        (None, Some(_)) => false,
        (None, None) => true,
    }
}

/// The position of the latest among the first `n` times: the last of those
/// that are at least as late as every other. `None` where `n` is zero.
pub open spec fn latest_before(times: Seq<Option<i64>>, n: int) -> Option<int>
    decreases n,
{
    if n <= 0 || n > times.len() {
        None
    } else {
        match latest_before(times, n - 1) {
            None => Some(n - 1),
            Some(best) => if at_least_as_late(times[n - 1], times[best]) {
                Some(n - 1)
            } else {
                Some(best)
            },
        }
    }
}

/// The position of the latest of `times`.
pub fn latest_position(times: &Vec<Option<i64>>) -> (r: Option<usize>)
    ensures
        match r {
            Some(i) => latest_before(times@, times@.len() as int) == Some(i as int) && i
                < times@.len(),
            None => latest_before(times@, times@.len() as int) is None,
        },
{
    let mut best: Option<usize> = None;
    let mut i: usize = 0;
    while i < times.len()
        invariant
            i <= times@.len(),
            match best {
                Some(b) => latest_before(times@, i as int) == Some(b as int) && b < i,
                None => latest_before(times@, i as int) is None,
            },
        decreases times@.len() - i,
    {
        best = match best {
            None => Some(i),
            Some(b) => {
                let later = match (times[i], times[b]) {
                    (Some(x), Some(y)) => x >= y,
                    (Some(_), None) => true,
                    (None, Some(_)) => false,
                    (None, None) => true,
                };
                if later {
                    Some(i)
                } else {
                    Some(b)
                }
            },
        };
        i = i + 1;
    }
    best
}

/// The times of the snapshots, each as seconds since the epoch where it
/// can be read.
pub open spec fn snapshot_times(snapshots: Seq<SnapshotView>) -> Seq<Option<i64>> {
    Seq::new(snapshots.len(), |i: int| rfc3339_seconds(snapshots[i].time))
}

/// The latest of `snapshots`: the one with the latest time. Among
/// snapshots of the same time, and among those whose time cannot be read,
/// the last in the listing counts as the latest.
pub open spec fn latest_of(snapshots: Seq<SnapshotView>) -> Option<SnapshotView> {
    match latest_before(snapshot_times(snapshots), snapshots.len() as int) {
        Some(i) => Some(snapshots[i]),
        None => None,
    }
}

/// The latest snapshot is at least as late as every other: what
/// `latest_before` finds lies among the first `n` positions, and none of
/// them holds a later time.
pub proof fn lemma_latest_before(times: Seq<Option<i64>>, n: int)
    requires
        0 <= n <= times.len(),
    ensures
        match latest_before(times, n) {
            Some(i) => 0 <= i < n && forall|k: int|
                0 <= k < n ==> at_least_as_late(times[i], #[trigger] times[k]),
            None => n == 0,
        },
    decreases n,
{
    if n > 0 {
        lemma_latest_before(times, n - 1);
    }
}

/// The latest of `snapshots`.
pub fn latest_snapshot(snapshots: &Vec<Snapshot>) -> (r: Option<Snapshot>)
    ensures
        r.deep_view() == latest_of(snapshots.deep_view()),
{
    let mut times: Vec<Option<i64>> = Vec::new();
    let mut i: usize = 0;
    while i < snapshots.len()
        invariant
            i <= snapshots@.len(),
            times@.len() == i,
            forall|j: int|
                0 <= j < i ==> #[trigger] times@[j] == rfc3339_seconds(snapshots@[j]@.time),
        decreases snapshots@.len() - i,
    {
        times.push(parse_rfc3339(snapshots[i].time.as_str()));
        i = i + 1;
    }
    assert(times@ =~= snapshot_times(snapshots.deep_view()));
    match latest_position(&times) {
        Some(i) => Some(snapshots[i].clone()),
        None => None,
    }
}

/// The latest snapshot of the repository.
pub fn get_latest_snapshot<E: CommandExecutor>(
    exec: &mut Recorded<E>,
    restic_bin: &str,
    env: &ResticEnv,
    timeout_secs: u64,
) -> (r: Result<Option<Snapshot>, String>)
    ensures
        asked_for(
            old(exec).history(),
            final(exec).history(),
            restic_call(restic_bin@, snapshots_args(), env@, timeout_secs),
        ),
        match r {
            Ok(s) => snapshots_outcome(final(exec).history().last().answer) is Ok && s.deep_view()
                == latest_of(snapshots_outcome(final(exec).history().last().answer)->Ok_0),
            Err(m) => snapshots_outcome(final(exec).history().last().answer) == Err::<
                Seq<SnapshotView>,
                Seq<char>,
            >(m@),
        },
{
    match list_snapshots(exec, restic_bin, env, timeout_secs) {
        Ok(s) => Ok(latest_snapshot(&s)),
        Err(m) => Err(m),
    }
}

/// The arguments that ask for the size of a repository.
pub open spec fn stats_args() -> Seq<Seq<char>> {
    seq!["stats"@, "--mode"@, "restore-size"@]
}

/// The first of the lines, from position `from` on, that names the total
/// size.
pub open spec fn size_line(lines: Seq<Seq<char>>, from: int) -> Option<Seq<char>>
    decreases lines.len() - from,
{
    if from < 0 || from >= lines.len() {
        None
    } else if has_sub(lines[from], "Total Size:"@) {
        Some(lines[from])
    } else {
        size_line(lines, from + 1)
    }
}

/// What stands between the first colon of `line` and the next, without the
/// white space around it.
pub open spec fn after_colon(line: Seq<char>) -> Seq<char> {
    let first = find_char(line, ':', 0);
    let second = find_char(line, ':', first + 1);
    if first >= line.len() {
        "Unknown"@
    } else {
        trimmed(line.subrange(first + 1, second))
    }
}

/// The size that the statistics name, or `Unknown`.
pub open spec fn total_size(stdout: Seq<char>) -> Seq<char> {
    match size_line(lines_of(stdout), 0) {
        Some(line) => after_colon(line),
        None => "Unknown"@,
    }
}

/// How the answer to the question for the size is read: statistics that
/// cannot be had leave the size unknown.
pub open spec fn stats_outcome(answer: Result<CommandOutputView, CommandErrorView>) -> Result<
    Seq<char>,
    Seq<char>,
> {
    match answer {
        Ok(o) => Ok(total_size(o.stdout)),
        Err(e) => match e {
            CommandErrorView::Failed { exit_code, stdout, stderr } => Ok("Unknown"@),
            _ => Err(
                error_text(
                    e,
                    Seq::empty(),
                    "Getting stats timed out"@,
                    "Failed to execute restic stats"@,
                ),
            ),
        },
    }
}

/// What stands between the first colon of `line` and the next.
pub fn read_after_colon(line: &str) -> (r: String)
    ensures
        r@ == after_colon(line@),
{
    let v = to_chars(line);
    let first = position_of_char(&v, ':', 0);
    if first >= v.len() {
        return "Unknown".to_owned();
    }
    let second = position_of_char(&v, ':', first + 1);
    proof {
        lemma_find_char(line@, ':', first + 1);
    }
    trim(line.substring_char(first + 1, second))
}

/// The size that the statistics name.
pub fn read_total_size(stdout: &str) -> (r: String)
    ensures
        r@ == total_size(stdout@),
{
    let all = lines(stdout);
    let mut i: usize = 0;
    while i < all.len()
        invariant
            i <= all@.len(),
            all.deep_view() == lines_of(stdout@),
            size_line(lines_of(stdout@), 0) == size_line(lines_of(stdout@), i as int),
        decreases all@.len() - i,
    {
        assert(all.deep_view()[i as int] == all@[i as int]@);
        if contains(all[i].as_str(), "Total Size:") {
            return read_after_colon(all[i].as_str());
        }
        i = i + 1;
    }
    "Unknown".to_owned()
}

/// The size of the repository as the statistics name it.
pub fn get_stats<E: CommandExecutor>(
    exec: &mut Recorded<E>,
    restic_bin: &str,
    env: &ResticEnv,
    timeout_secs: u64,
) -> (r: Result<String, String>)
    ensures
        asked_for(
            old(exec).history(),
            final(exec).history(),
            restic_call(restic_bin@, stats_args(), env@, timeout_secs),
        ),
        text_view(r) == stats_outcome(final(exec).history().last().answer),
{
    let mut args: Vec<String> = Vec::new();
    push_arg(&mut args, "stats");
    push_arg(&mut args, "--mode");
    push_arg(&mut args, "restore-size");
    assert(args.deep_view() =~= stats_args());
    match run_restic(exec, restic_bin, &args, env, timeout_secs) {
        Ok(o) => Ok(read_total_size(o.stdout.as_str())),
        Err(e) => match e {
            CommandError::Failed { exit_code, stdout, stderr } => Ok("Unknown".to_owned()),
            _ => Err(
                describe_error(
                    &e,
                    "",
                    "Getting stats timed out",
                    "Failed to execute restic stats",
                ),
            ),
        },
    }
}

/// The arguments that check a repository, reading all data where
/// `read_data` is set.
pub open spec fn check_args(read_data: bool) -> Seq<Seq<char>> {
    if read_data {
        seq!["check"@, "--read-data"@]
    } else {
        seq!["check"@]
    }
}

/// How the answer to a check is read: all that a passed check wrote, or
/// all that a failed one wrote as the error.
pub open spec fn check_outcome(answer: Result<CommandOutputView, CommandErrorView>) -> Result<
    Seq<char>,
    Seq<char>,
> {
    match answer {
        Ok(o) => Ok(o.stdout + o.stderr),
        Err(e) => match e {
            CommandErrorView::Failed { exit_code, stdout, stderr } => Err(
                "Repository check failed:\n"@ + stdout + "\n"@ + stderr,
            ),
            _ => Err(
                error_text(
                    e,
                    Seq::empty(),
                    "Repository check timed out"@,
                    "Failed to execute restic check"@,
                ),
            ),
        },
    }
}

/// Checks the integrity of the repository.
pub fn check_repository<E: CommandExecutor>(
    exec: &mut Recorded<E>,
    restic_bin: &str,
    env: &ResticEnv,
    read_data: bool,
    timeout_secs: u64,
) -> (r: Result<String, String>)
    ensures
        asked_for(
            old(exec).history(),
            final(exec).history(),
            restic_call(restic_bin@, check_args(read_data), env@, timeout_secs),
        ),
        text_view(r) == check_outcome(final(exec).history().last().answer),
{
    let mut args: Vec<String> = Vec::new();
    push_arg(&mut args, "check");
    if read_data {
        push_arg(&mut args, "--read-data");
    }
    assert(args.deep_view() =~= check_args(read_data));
    match run_restic(exec, restic_bin, &args, env, timeout_secs) {
        Ok(o) => Ok(concat2(o.stdout.as_str(), o.stderr.as_str())),
        Err(e) => match e {
            CommandError::Failed { exit_code, stdout, stderr } => {
                let mut m = concat3("Repository check failed:\n", stdout.as_str(), "\n");
                m.append(stderr.as_str());
                Err(m)
            },
            _ => Err(
                describe_error(
                    &e,
                    "",
                    "Repository check timed out",
                    "Failed to execute restic check",
                ),
            ),
        },
    }
}

/// The arguments that restore a snapshot: into the target directory where
/// one is given, and only what is included where anything is.
pub open spec fn restore_args(
    snapshot_id: Seq<char>,
    target_dir: Option<Seq<char>>,
    include_paths: Seq<Seq<char>>,
) -> Seq<Seq<char>> {
    seq!["restore"@, snapshot_id] + (match target_dir {
        Some(t) => seq!["--target"@, t],
        None => Seq::empty(),
    }) + flagged("--include"@, include_paths, include_paths.len() as int)
}

/// How the answer to a restore is read.
pub open spec fn restore_outcome(answer: Result<CommandOutputView, CommandErrorView>) -> Result<
    (),
    Seq<char>,
> {
    match answer {
        Ok(_) => Ok(()),
        Err(e) => Err(
            error_text(
                e,
                "Restore failed: "@,
                "Restore timed out"@,
                "Failed to execute restic restore"@,
            ),
        ),
    }
}

/// Restores a snapshot.
pub fn restore_snapshot<E: CommandExecutor>(
    exec: &mut Recorded<E>,
    restic_bin: &str,
    env: &ResticEnv,
    snapshot_id: &str,
    target_dir: Option<&str>,
    include_paths: &Vec<String>,
    timeout_secs: u64,
) -> (r: Result<(), String>)
    ensures
        asked_for(
            old(exec).history(),
            final(exec).history(),
            restic_call(
                restic_bin@,
                restore_args(snapshot_id@, target_dir.deep_view(), include_paths.deep_view()),
                env@,
                timeout_secs,
            ),
        ),
        unit_view(r) == restore_outcome(final(exec).history().last().answer),
{
    let mut args: Vec<String> = Vec::new();
    push_arg(&mut args, "restore");
    push_arg(&mut args, snapshot_id);
    if let Some(t) = target_dir {
        push_arg(&mut args, "--target");
        push_arg(&mut args, t);
    }
    push_flagged(&mut args, "--include", include_paths);
    assert(args.deep_view() =~= restore_args(
        snapshot_id@,
        target_dir.deep_view(),
        include_paths.deep_view(),
    ));
    match run_restic(exec, restic_bin, &args, env, timeout_secs) {
        Ok(_) => Ok(()),
        Err(e) => Err(
            describe_error(
                &e,
                "Restore failed: ",
                "Restore timed out",
                "Failed to execute restic restore",
            ),
        ),
    }
}

/// The arguments that list the files of a snapshot.
pub open spec fn ls_args(snapshot_id: Seq<char>) -> Seq<Seq<char>> {
    seq!["ls"@, snapshot_id, "--long"@]
}

/// How the answer to a file listing is read: its lines.
pub open spec fn ls_outcome(answer: Result<CommandOutputView, CommandErrorView>) -> Result<
    Seq<Seq<char>>,
    Seq<char>,
> {
    match answer {
        Ok(o) => Ok(lines_of(o.stdout)),
        Err(e) => Err(
            error_text(
                e,
                "Failed to list files: "@,
                "Listing files timed out"@,
                "Failed to execute restic ls"@,
            ),
        ),
    }
}

/// Lists the files of a snapshot.
pub fn list_snapshot_files<E: CommandExecutor>(
    exec: &mut Recorded<E>,
    restic_bin: &str,
    env: &ResticEnv,
    snapshot_id: &str,
    timeout_secs: u64,
) -> (r: Result<Vec<String>, String>)
    ensures
        asked_for(
            old(exec).history(),
            final(exec).history(),
            restic_call(restic_bin@, ls_args(snapshot_id@), env@, timeout_secs),
        ),
        texts_view(r) == ls_outcome(final(exec).history().last().answer),
{
    let mut args: Vec<String> = Vec::new();
    push_arg(&mut args, "ls");
    push_arg(&mut args, snapshot_id);
    push_arg(&mut args, "--long");
    assert(args.deep_view() =~= ls_args(snapshot_id@));
    match run_restic(exec, restic_bin, &args, env, timeout_secs) {
        Ok(o) => Ok(lines(o.stdout.as_str())),
        Err(e) => Err(
            describe_error(
                &e,
                "Failed to list files: ",
                "Listing files timed out",
                "Failed to execute restic ls",
            ),
        ),
    }
}

} // verus!
