//! Running commands, as something that can be handed in.
//!
//! The library never starts a process. What it needs run, it hands to a
//! [`CommandExecutor`]; what came back, it reads. The executor is held in
//! a [`Recorded`], which keeps the history of what the executor was asked
//! and what it answered; the contracts of the library's functions are
//! stated over that history.

use crate::name_map::{lookup, with_entry, NameMap};
use crate::text::same_text;
use vstd::prelude::*;

verus! {

/// What a command printed that ended with success.
#[derive(Debug)]
pub struct CommandOutput {
    pub stdout: String,
    pub stderr: String,
}

/// What a [`CommandOutput`] holds, as a value of specifications.
pub struct CommandOutputView {
    pub stdout: Seq<char>,
    pub stderr: Seq<char>,
}

impl View for CommandOutput {
    type V = CommandOutputView;

    open spec fn view(&self) -> CommandOutputView {
        CommandOutputView { stdout: self.stdout@, stderr: self.stderr@ }
    }
}

/// Why a command did not end with success.
#[derive(Debug)]
pub enum CommandError {
    /// The command ran and reported failure.
    Failed { exit_code: Option<i32>, stdout: String, stderr: String },
    /// The command ran out of time and was ended.
    TimedOut,
    /// The command could not be started.
    NotStarted(String),
}

/// What a [`CommandError`] holds, as a value of specifications.
pub enum CommandErrorView {
    Failed { exit_code: Option<i32>, stdout: Seq<char>, stderr: Seq<char> },
    TimedOut,
    NotStarted(Seq<char>),
}

impl View for CommandError {
    type V = CommandErrorView;

    open spec fn view(&self) -> CommandErrorView {
        match self {
            CommandError::Failed { exit_code, stdout, stderr } => CommandErrorView::Failed {
                exit_code: *exit_code,
                stdout: stdout@,
                stderr: stderr@,
            },
            CommandError::TimedOut => CommandErrorView::TimedOut,
            CommandError::NotStarted(m) => CommandErrorView::NotStarted(m@),
        }
    }
}

/// A command as it is handed to an executor.
pub struct CommandView {
    pub program: Seq<char>,
    pub args: Seq<Seq<char>>,
    pub env: Seq<(Seq<char>, Seq<char>)>,
    pub working_dir: Option<Seq<char>>,
    pub timeout_secs: Option<u64>,
}

/// A command and what the executor answered.
pub struct Exchange {
    pub command: CommandView,
    pub answer: Result<CommandOutputView, CommandErrorView>,
}

/// The answer of an executor as a value of specifications.
pub open spec fn answer_view(r: Result<CommandOutput, CommandError>) -> Result<
    CommandOutputView,
    CommandErrorView,
> {
    match r {
        Ok(o) => Ok(o@),
        Err(e) => Err(e@),
    }
}

/// Something that runs commands. What comes back depends on the machine,
/// so nothing is promised of it.
pub trait CommandExecutor {
    /// Runs `program` with `args` in the environment extended by `env`.
    /// `Ok` means that the command ended with success.
    fn run_command(
        &mut self,
        program: &str,
        args: &Vec<String>,
        env: &NameMap<String>,
        working_dir: Option<&str>,
        timeout_secs: Option<u64>,
    ) -> (r: Result<CommandOutput, CommandError>);
}

/// An executor, and the record of what it was asked and what it answered.
pub struct Recorded<E: CommandExecutor> {
    pub executor: E,
    /// The exchanges so far.
    pub log: Ghost<Seq<Exchange>>,
}

impl<E: CommandExecutor> Recorded<E> {
    /// What the executor was asked so far, and what it answered.
    pub open spec fn history(&self) -> Seq<Exchange> {
        self.log@
    }

    /// The executor with an empty record.
    pub fn new(executor: E) -> (r: Self)
        ensures
            r.executor == executor,
            r.history() == Seq::<Exchange>::empty(),
    {
        Recorded { executor, log: Ghost(Seq::empty()) }
    }

    /// Hands a command to the executor. The command and the answer join
    /// the history.
    pub fn run_command(
        &mut self,
        program: &str,
        args: &Vec<String>,
        env: &NameMap<String>,
        working_dir: Option<&str>,
        timeout_secs: Option<u64>,
    ) -> (r: Result<CommandOutput, CommandError>)
        ensures
            final(self).history() == old(self).history().push(
                Exchange {
                    command: CommandView {
                        program: program@,
                        args: args.deep_view(),
                        env: env.deep_view(),
                        working_dir: working_dir.deep_view(),
                        timeout_secs: timeout_secs,
                    },
                    answer: answer_view(r),
                },
            ),
    {
        let r = self.executor.run_command(program, args, env, working_dir, timeout_secs);
        proof {
            self.log@ = self.log@.push(
                Exchange {
                    command: CommandView {
                        program: program@,
                        args: args.deep_view(),
                        env: env.deep_view(),
                        working_dir: working_dir.deep_view(),
                        timeout_secs: timeout_secs,
                    },
                    answer: answer_view(r),
                },
            );
        }
        r
    }
}

/// A recorded invocation.
#[derive(Debug)]
pub struct CommandCall {
    pub program: String,
    pub args: Vec<String>,
    pub working_dir: Option<String>,
}

/// What a [`CommandCall`] holds, as a value of specifications.
pub struct CommandCallView {
    pub program: Seq<char>,
    pub args: Seq<Seq<char>>,
    pub working_dir: Option<Seq<char>>,
}

impl View for CommandCall {
    type V = CommandCallView;

    open spec fn view(&self) -> CommandCallView {
        CommandCallView {
            program: self.program@,
            args: self.args.deep_view(),
            working_dir: self.working_dir.deep_view(),
        }
    }
}

impl DeepView for CommandCall {
    type V = CommandCallView;

    open spec fn deep_view(&self) -> CommandCallView {
        self@
    }
}

impl Clone for CommandCall {
    fn clone(&self) -> (r: Self)
        ensures
            r@ == self@,
    {
        let args = self.args.clone();
        assert(args.deep_view() =~= self.args.deep_view());
        CommandCall {
            program: self.program.clone(),
            args,
            working_dir: match &self.working_dir {
                Some(d) => Some(d.clone()),
                None => None,
            },
        }
    }
}

/// What a scripted executor answers.
#[derive(Debug)]
pub enum MockResponse {
    Success { stdout: String, stderr: String },
    Failure { stderr: String, exit_code: i32 },
    Timeout,
}

/// What a [`MockResponse`] holds, as a value of specifications.
pub enum MockResponseView {
    Success { stdout: Seq<char>, stderr: Seq<char> },
    Failure { stderr: Seq<char>, exit_code: i32 },
    Timeout,
}

impl View for MockResponse {
    type V = MockResponseView;

    open spec fn view(&self) -> MockResponseView {
        match self {
            MockResponse::Success { stdout, stderr } => MockResponseView::Success {
                stdout: stdout@,
                stderr: stderr@,
            },
            MockResponse::Failure { stderr, exit_code } => MockResponseView::Failure {
                stderr: stderr@,
                exit_code: *exit_code,
            },
            MockResponse::Timeout => MockResponseView::Timeout,
        }
    }
}

impl DeepView for MockResponse {
    type V = MockResponseView;

    open spec fn deep_view(&self) -> MockResponseView {
        self@
    }
}

impl Default for MockResponse {
    fn default() -> (r: Self)
        ensures
            r@ == (MockResponseView::Success { stdout: Seq::empty(), stderr: Seq::empty() }),
    {
        MockResponse::Success { stdout: String::new(), stderr: String::new() }
    }
}

/// The answer that a scripted response stands for.
pub open spec fn response_answer(r: MockResponseView) -> Result<CommandOutputView, CommandErrorView> {
    match r {
        MockResponseView::Success { stdout, stderr } => Ok(
            CommandOutputView { stdout: stdout, stderr: stderr },
        ),
        MockResponseView::Failure { stderr, exit_code } => Err(
            CommandErrorView::Failed {
                exit_code: Some(exit_code),
                stdout: Seq::empty(),
                stderr: stderr,
            },
        ),
        MockResponseView::Timeout => Err(CommandErrorView::TimedOut),
    }
}

/// The response that is scripted for `program`: its own, or the default.
pub open spec fn scripted(
    responses: Seq<(Seq<char>, MockResponseView)>,
    default_response: MockResponseView,
    program: Seq<char>,
) -> MockResponseView {
    match lookup(responses, program) {
        Some(r) => r,
        None => default_response,
    }
}

/// The number of the first `n` calls that ran `program`.
pub open spec fn calls_of(calls: Seq<CommandCallView>, program: Seq<char>, n: int) -> nat
    decreases n,
{
    if n <= 0 || n > calls.len() {
        0
    } else {
        calls_of(calls, program, n - 1) + if calls[n - 1].program == program {
            1nat
        } else {
            0nat
        }
    }
}

/// An executor that runs nothing: it records what it is asked and answers
/// as it was scripted.
pub struct MockExecutor {
    /// The invocations so far.
    pub calls: Vec<CommandCall>,
    /// The scripted responses, by program.
    pub responses: NameMap<MockResponse>,
    /// The response for a program without one of its own.
    pub default_response: MockResponse,
}

impl MockExecutor {
    /// An executor that answers every command with success and no output.
    pub fn new() -> (r: Self)
        ensures
            r.calls@.len() == 0,
            r.responses@.len() == 0,
            r.default_response@ == (MockResponseView::Success {
                stdout: Seq::empty(),
                stderr: Seq::empty(),
            }),
    {
        MockExecutor {
            calls: Vec::new(),
            responses: NameMap::new(),
            default_response: MockResponse::default(),
        }
    }

    /// Scripts the response for `program`.
    pub fn expect(self, program: &str, response: MockResponse) -> (r: Self)
        ensures
            r.responses.deep_view() == with_entry(
                self.responses.deep_view(),
                program@,
                response@,
            ),
            r.default_response == self.default_response,
            r.calls == self.calls,
    {
        let mut this = self;
        this.responses.put(program.to_owned(), response);
        this
    }

    /// Scripts the response for every program without one of its own.
    pub fn with_default_response(self, response: MockResponse) -> (r: Self)
        ensures
            r.default_response == response,
            r.responses == self.responses,
            r.calls == self.calls,
    {
        let mut this = self;
        this.default_response = response;
        this
    }

    /// The invocations so far.
    pub fn get_calls(&self) -> (r: Vec<CommandCall>)
        ensures
            r.deep_view() == self.calls.deep_view(),
    {
        let r = self.calls.clone();
        assert(r.deep_view() =~= self.calls.deep_view());
        r
    }

    /// Whether `program` was run.
    pub fn was_called(&self, program: &str) -> (r: bool)
        ensures
            r == (calls_of(self.calls.deep_view(), program@, self.calls@.len() as int) > 0),
    {
        self.call_count(program) > 0
    }

    /// How often `program` was run.
    pub fn call_count(&self, program: &str) -> (r: usize)
        ensures
            r == calls_of(self.calls.deep_view(), program@, self.calls@.len() as int),
    {
        let mut n: usize = 0;
        let mut i: usize = 0;
        while i < self.calls.len()
            invariant
                i <= self.calls@.len(),
                n <= i,
                n == calls_of(self.calls.deep_view(), program@, i as int),
            decreases self.calls@.len() - i,
        {
            if same_text(self.calls[i].program.as_str(), program) {
                n = n + 1;
            }
            i = i + 1;
        }
        n
    }

    /// The response that is scripted for `program`.
    fn get_response(&self, program: &str) -> (r: &MockResponse)
        ensures
            r@ == scripted(self.responses.deep_view(), self.default_response@, program@),
    {
        match self.responses.find(program) {
            Some(r) => r,
            None => &self.default_response,
        }
    }
}

/// The answer that a scripted response stands for.
pub fn execute_response(response: &MockResponse) -> (r: Result<CommandOutput, CommandError>)
    ensures
        answer_view(r) == response_answer(response@),
{
    match response {
        MockResponse::Success { stdout, stderr } => Ok(
            CommandOutput { stdout: stdout.clone(), stderr: stderr.clone() },
        ),
        MockResponse::Failure { stderr, exit_code } => Err(
            CommandError::Failed {
                exit_code: Some(*exit_code),
                stdout: String::new(),
                stderr: stderr.clone(),
            },
        ),
        MockResponse::Timeout => Err(CommandError::TimedOut),
    }
}

impl CommandExecutor for MockExecutor {
    /// Records the invocation and answers as scripted.
    fn run_command(
        &mut self,
        program: &str,
        args: &Vec<String>,
        env: &NameMap<String>,
        working_dir: Option<&str>,
        timeout_secs: Option<u64>,
    ) -> (r: Result<CommandOutput, CommandError>)
        ensures
            answer_view(r) == response_answer(
                scripted(old(self).responses.deep_view(), old(self).default_response@, program@),
            ),
            final(self).calls.deep_view() == old(self).calls.deep_view().push(
                CommandCallView {
                    program: program@,
                    args: args.deep_view(),
                    working_dir: working_dir.deep_view(),
                },
            ),
            final(self).responses == old(self).responses,
            final(self).default_response == old(self).default_response,
    {
        let call_args = args.clone();
        assert(call_args.deep_view() =~= args.deep_view());
        let call = CommandCall {
            program: program.to_owned(),
            args: call_args,
            working_dir: match working_dir {
                Some(d) => Some(d.to_owned()),
                None => None,
            },
        };
        let ghost before = self.calls.deep_view();
        self.calls.push(call);
        assert(self.calls.deep_view() =~= before.push(call@));
        execute_response(self.get_response(program))
    }
}

} // verus!
