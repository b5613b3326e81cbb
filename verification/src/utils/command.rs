//! Commands in their usual forms: for their output, and through the shell.

use crate::name_map::NameMap;
use crate::utils::executor::{
    answer_view, CommandError, CommandErrorView, CommandExecutor, CommandOutput, CommandView,
    Exchange, Recorded,
};
use vstd::prelude::*;

verus! {

/// The executor was asked once more, namely to run `command`.
pub open spec fn asked_for(before: Seq<Exchange>, after: Seq<Exchange>, command: CommandView) -> bool {
    &&& after.len() == before.len() + 1
    &&& after.drop_last() == before
    &&& after.last().command == command
}

/// A command without an environment of its own.
pub open spec fn plain_call(
    program: Seq<char>,
    args: Seq<Seq<char>>,
    working_dir: Option<Seq<char>>,
    timeout_secs: Option<u64>,
) -> CommandView {
    CommandView {
        program: program,
        args: args,
        env: Seq::empty(),
        working_dir: working_dir,
        timeout_secs: timeout_secs,
    }
}

/// Runs a command without an environment of its own.
pub fn run_plain<E: CommandExecutor>(
    exec: &mut Recorded<E>,
    program: &str,
    args: &Vec<String>,
    working_dir: Option<&str>,
    timeout_secs: Option<u64>,
) -> (r: Result<CommandOutput, CommandError>)
    ensures
        asked_for(
            old(exec).history(),
            final(exec).history(),
            plain_call(program@, args.deep_view(), working_dir.deep_view(), timeout_secs),
        ),
        final(exec).history().last().answer == answer_view(r),
{
    let ghost before = exec.history();
    let env: NameMap<String> = NameMap::new();
    assert(env.deep_view() =~= Seq::empty());
    let r = exec.run_command(program, args, &env, working_dir, timeout_secs);
    assert(exec.history().drop_last() =~= before);
    r
}

/// Runs a command for what it writes to its output.
pub fn run_command_stdout<E: CommandExecutor>(
    exec: &mut Recorded<E>,
    program: &str,
    args: &Vec<String>,
    working_dir: Option<&str>,
    timeout_secs: Option<u64>,
) -> (r: Result<String, CommandError>)
    ensures
        asked_for(
            old(exec).history(),
            final(exec).history(),
            plain_call(program@, args.deep_view(), working_dir.deep_view(), timeout_secs),
        ),
        match r {
            Ok(text) => final(exec).history().last().answer is Ok
                && final(exec).history().last().answer->Ok_0.stdout == text@,
            Err(e) => final(exec).history().last().answer == Err::<
                crate::utils::executor::CommandOutputView,
                CommandErrorView,
            >(e@),
        },
{
    match run_plain(exec, program, args, working_dir, timeout_secs) {
        Ok(o) => Ok(o.stdout),
        Err(e) => Err(e),
    }
}

/// The arguments that make the shell run `command`.
pub open spec fn shell_args(command: Seq<char>) -> Seq<Seq<char>> {
    seq!["-c"@, command]
}

/// Runs a command line through the shell, as hooks are run.
pub fn run_shell_command<E: CommandExecutor>(
    exec: &mut Recorded<E>,
    command: &str,
    working_dir: Option<&str>,
    timeout_secs: Option<u64>,
) -> (r: Result<CommandOutput, CommandError>)
    ensures
        asked_for(
            old(exec).history(),
            final(exec).history(),
            plain_call("sh"@, shell_args(command@), working_dir.deep_view(), timeout_secs),
        ),
        final(exec).history().last().answer == answer_view(r),
{
    let mut args: Vec<String> = Vec::new();
    args.push("-c".to_owned());
    args.push(command.to_owned());
    assert(args.deep_view() =~= shell_args(command@));
    run_plain(exec, "sh", &args, working_dir, timeout_secs)
}

} // verus!
