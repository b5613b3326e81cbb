//! The schedule table: the entries of the services, as text.
//!
//! Reading and writing the table is the caller's work. The functions here
//! say what the table is to hold.

use crate::config::loader::{schedule_has_five_fields, schedule_is_valid};
use crate::text::{concat2, concat3, contains, has_sub, join, joined, lines, lines_of};
use crate::utils::command::{asked_for, plain_call, run_plain};
use crate::utils::executor::{
    CommandError, CommandErrorView, CommandExecutor, CommandOutputView, Recorded,
};
use crate::utils::restic::{describe_error, error_text, push_arg, text_view};
use vstd::prelude::*;

verus! {

/// The line that marks the entry of a service.
pub open spec fn marker_spec(service: Seq<char>) -> Seq<char> {
    "# Restic Manager - Service: "@ + service
}

/// The command that the schedule runs for a service.
pub open spec fn command_spec(binary: Seq<char>, config: Seq<char>, service: Seq<char>) -> Seq<char> {
    binary + " --config "@ + config + " run --service "@ + service
        + " >> /var/log/restic-manager/"@ + service + ".log 2>&1"@
}

/// The entry of a service: its marker, and on the next line the schedule
/// and the command.
pub open spec fn entry_spec(
    service: Seq<char>,
    schedule: Seq<char>,
    binary: Seq<char>,
    config: Seq<char>,
) -> Seq<char> {
    marker_spec(service) + "\n"@ + schedule + " "@ + command_spec(binary, config, service)
}

/// The lines, from position `from` on, without those that hold `marker` and
/// without the line after such a one. `skip` says that the line at `from`
/// follows a marker.
pub open spec fn kept_lines(lines: Seq<Seq<char>>, marker: Seq<char>, from: int, skip: bool) -> Seq<
    Seq<char>,
>
    decreases lines.len() - from,
{
    if from < 0 || from >= lines.len() {
        Seq::empty()
    } else if has_sub(lines[from], marker) {
        kept_lines(lines, marker, from + 1, true)
    } else if skip {
        kept_lines(lines, marker, from + 1, false)
    } else {
        seq![lines[from]] + kept_lines(lines, marker, from + 1, false)
    }
}

/// The table without the entry of a service; `None` where the table holds
/// no such entry.
pub open spec fn removed_spec(existing: Seq<char>, service: Seq<char>) -> Option<Seq<char>> {
    if has_sub(existing, marker_spec(service)) {
        Some(joined(kept_lines(lines_of(existing), marker_spec(service), 0, false), "\n"@) + "\n"@)
    } else {
        None
    }
}

/// The table with the entry of a service: in place of the entry that it
/// had, or else at the end.
pub open spec fn added_spec(
    existing: Seq<char>,
    service: Seq<char>,
    schedule: Seq<char>,
    binary: Seq<char>,
    config: Seq<char>,
) -> Seq<char> {
    let entry = entry_spec(service, schedule, binary, config);
    if has_sub(existing, marker_spec(service)) {
        joined(
            kept_lines(lines_of(existing), marker_spec(service), 0, false).push(entry),
            "\n"@,
        ) + "\n"@
    } else if existing.len() == 0 {
        entry + "\n"@
    } else {
        existing + "\n"@ + entry + "\n"@
    }
}

/// The markers among the lines from position `from` on.
pub open spec fn marker_lines(lines: Seq<Seq<char>>, from: int) -> Seq<Seq<char>>
    decreases lines.len() - from,
{
    if from < 0 || from >= lines.len() {
        Seq::empty()
    } else if has_sub(lines[from], "# Restic Manager - Service:"@) {
        seq![lines[from]] + marker_lines(lines, from + 1)
    } else {
        marker_lines(lines, from + 1)
    }
}

/// The line that marks the entry of a service.
pub fn cron_marker(service_name: &str) -> (r: String)
    ensures
        r@ == marker_spec(service_name@),
{
    concat2("# Restic Manager - Service: ", service_name)
}

/// The entry of a service.
pub fn cron_entry(service_name: &str, schedule: &str, binary_path: &str, config_path: &str) -> (r:
    String)
    ensures
        r@ == entry_spec(service_name@, schedule@, binary_path@, config_path@),
{
    let mut command = concat3(binary_path, " --config ", config_path);
    command.append(" run --service ");
    command.append(service_name);
    command.append(" >> /var/log/restic-manager/");
    command.append(service_name);
    command.append(".log 2>&1");
    let mut r = cron_marker(service_name);
    r.append("\n");
    r.append(schedule);
    r.append(" ");
    r.append(command.as_str());
    proof {
        let c = command_spec(binary_path@, config_path@, service_name@);
        assert(r@ =~= marker_spec(service_name@) + "\n"@ + schedule@ + " "@ + c);
    }
    r
}

/// The lines of `existing` without the entry that `marker` marks.
fn lines_without(existing: &str, marker: &str) -> (r: Vec<String>)
    ensures
        r.deep_view() == kept_lines(lines_of(existing@), marker@, 0, false),
{
    let all = lines(existing);
    let mut r: Vec<String> = Vec::new();
    let mut skip = false;
    let mut i: usize = 0;
    assert(r.deep_view() =~= Seq::<Seq<char>>::empty());
    assert(Seq::<Seq<char>>::empty() + kept_lines(all.deep_view(), marker@, 0, false)
        =~= kept_lines(all.deep_view(), marker@, 0, false));
    while i < all.len()
        invariant
            i <= all@.len(),
            all.deep_view() == lines_of(existing@),
            kept_lines(all.deep_view(), marker@, 0, false) == r.deep_view() + kept_lines(
                all.deep_view(),
                marker@,
                i as int,
                skip,
            ),
        decreases all@.len() - i,
    {
        assert(all.deep_view()[i as int] == all@[i as int]@);
        let ghost before = r.deep_view();
        if contains(all[i].as_str(), marker) {
            skip = true;
        } else if skip {
            skip = false;
        } else {
            r.push(all[i].clone());
            assert(r.deep_view() =~= before.push(all@[i as int]@));
            assert(before + (seq![all@[i as int]@] + kept_lines(
                all.deep_view(),
                marker@,
                i + 1,
                false,
            )) =~= before.push(all@[i as int]@) + kept_lines(
                all.deep_view(),
                marker@,
                i + 1,
                false,
            ));
        }
        i = i + 1;
    }
    assert(r.deep_view() + Seq::<Seq<char>>::empty() =~= r.deep_view());
    r
}

/// The table with the entry of a service: in place of the entry that it
/// had, or else at the end.
pub fn add_cron_job(
    existing: &str,
    service_name: &str,
    schedule: &str,
    binary_path: &str,
    config_path: &str,
) -> (r: String)
    ensures
        r@ == added_spec(existing@, service_name@, schedule@, binary_path@, config_path@),
{
    let entry = cron_entry(service_name, schedule, binary_path, config_path);
    let marker = cron_marker(service_name);
    if contains(existing, marker.as_str()) {
        let mut kept = lines_without(existing, marker.as_str());
        let ghost before = kept.deep_view();
        kept.push(entry);
        assert(kept.deep_view() =~= before.push(entry@));
        let mut r = join(&kept, "\n");
        r.append("\n");
        r
    } else if existing.unicode_len() == 0 {
        concat2(entry.as_str(), "\n")
    } else {
        let mut r = concat3(existing, "\n", entry.as_str());
        r.append("\n");
        r
    }
}

/// The table without the entry of a service; `None` where the table holds
/// no such entry and stays as it is.
pub fn remove_cron_job(existing: &str, service_name: &str) -> (r: Option<String>)
    ensures
        r.deep_view() == removed_spec(existing@, service_name@),
{
    let marker = cron_marker(service_name);
    if !contains(existing, marker.as_str()) {
        return None;
    }
    let kept = lines_without(existing, marker.as_str());
    let mut r = join(&kept, "\n");
    r.append("\n");
    Some(r)
}

/// Whether a schedule has exactly five white-space separated fields.
pub fn validate_cron_schedule(schedule: &str) -> (r: bool)
    ensures
        r == schedule_is_valid(schedule@),
{
    schedule_has_five_fields(schedule)
}

/// The markers of the entries in the table, in their order.
pub fn list_cron_jobs(existing: &str) -> (r: Vec<String>)
    ensures
        r.deep_view() == marker_lines(lines_of(existing@), 0),
{
    let all = lines(existing);
    let mut r: Vec<String> = Vec::new();
    let mut i: usize = 0;
    assert(r.deep_view() =~= Seq::<Seq<char>>::empty());
    assert(Seq::<Seq<char>>::empty() + marker_lines(all.deep_view(), 0) =~= marker_lines(
        all.deep_view(),
        0,
    ));
    while i < all.len()
        invariant
            i <= all@.len(),
            all.deep_view() == lines_of(existing@),
            marker_lines(all.deep_view(), 0) == r.deep_view() + marker_lines(
                all.deep_view(),
                i as int,
            ),
        decreases all@.len() - i,
    {
        assert(all.deep_view()[i as int] == all@[i as int]@);
        let ghost before = r.deep_view();
        if contains(all[i].as_str(), "# Restic Manager - Service:") {
            r.push(all[i].clone());
            assert(r.deep_view() =~= before.push(all@[i as int]@));
            assert(before + (seq![all@[i as int]@] + marker_lines(all.deep_view(), i + 1))
                =~= before.push(all@[i as int]@) + marker_lines(all.deep_view(), i + 1));
        }
        i = i + 1;
    }
    assert(r.deep_view() + Seq::<Seq<char>>::empty() =~= r.deep_view());
    r
}

/// The argument that prints the table.
pub open spec fn crontab_args() -> Seq<Seq<char>> {
    seq!["-l"@]
}

/// How the answer to printing the table is read: a user without a table
/// has an empty one.
pub open spec fn crontab_outcome(answer: Result<CommandOutputView, CommandErrorView>) -> Result<
    Seq<char>,
    Seq<char>,
> {
    match answer {
        Ok(o) => Ok(o.stdout),
        Err(e) => match e {
            CommandErrorView::Failed { exit_code, stdout, stderr } => if has_sub(
                stderr,
                "no crontab"@,
            ) {
                Ok(Seq::empty())
            } else {
                Err("Failed to read crontab: "@ + stderr)
            },
            _ => Err(
                error_text(e, Seq::empty(), "Reading crontab timed out"@, "Failed to execute crontab -l"@),
            ),
        },
    }
}

/// The table of the current user.
pub fn get_crontab<E: CommandExecutor>(exec: &mut Recorded<E>) -> (r: Result<String, String>)
    ensures
        asked_for(
            old(exec).history(),
            final(exec).history(),
            plain_call("crontab"@, crontab_args(), None, None),
        ),
        text_view(r) == crontab_outcome(final(exec).history().last().answer),
{
    let mut args: Vec<String> = Vec::new();
    push_arg(&mut args, "-l");
    assert(args.deep_view() =~= crontab_args());
    match run_plain(exec, "crontab", &args, None, None) {
        Ok(o) => Ok(o.stdout),
        Err(e) => match e {
            CommandError::Failed { exit_code, stdout, stderr } => if contains(
                stderr.as_str(),
                "no crontab",
            ) {
                Ok(String::new())
            } else {
                Err(concat2("Failed to read crontab: ", stderr.as_str()))
            },
            _ => Err(
                describe_error(&e, "", "Reading crontab timed out", "Failed to execute crontab -l"),
            ),
        },
    }
}

} // verus!
