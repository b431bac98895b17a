//! Programs that are run in a shell: how they are started, and what becomes of their output.
use vstd::prelude::*;
use vstd::utf8::*;

use crate::environment::Environment;
use crate::error::{Cause, Error, ErrorView, SubprocessError};
use crate::player_event::PlayerEvent;

verus! {

/// How a program is started.
pub struct CommandLine {
    pub program: String,
    pub args: Vec<String>,
    /// Variables that are set on top of the inherited ones.
    pub env: Environment,
    /// Whether all three standard streams are pipes. Otherwise the system's defaults hold.
    pub piped: bool,
}

impl CommandLine {
    /// The shell `shell` is started and told to run `cmd`.
    pub open spec fn runs(self, shell: Seq<char>, cmd: Seq<char>) -> bool {
        &&& self.program@ == shell
        &&& self.args@.len() == 2
        &&& self.args@[0]@ == "-c"@
        &&& self.args@[1]@ == cmd
    }
}

fn shell_command(shell: &str, cmd: &str, env: Environment, piped: bool) -> (r: CommandLine)
    ensures
        r.runs(shell@, cmd@),
        r.env == env,
        r.piped == piped,
{
    let mut args: Vec<String> = Vec::new();
    args.push("-c".to_owned());
    args.push(cmd.to_owned());
    CommandLine { program: shell.to_owned(), args, env, piped }
}

/// How `cmd` is run in `shell` by a caller that waits for its end. What is returned to the
/// caller afterwards, `run_program_result` says.
pub fn run_program(shell: &str, cmd: &str) -> (r: CommandLine)
    ensures
        r.runs(shell@, cmd@),
        r.env@ == Map::<Seq<char>, Seq<char>>::empty(),
        !r.piped,
{
    shell_command(shell, cmd, Environment::new(), false)
}

/// What a program left behind when it ended.
pub struct ProgramOutput {
    pub success: bool,
    pub stdout: Vec<u8>,
    pub stderr: Vec<u8>,
}

/// What a run of `cmd` in `shell` comes to: what the program wrote, where it succeeded, and
/// otherwise an error with all that is known of the failure. Output that is not UTF-8 is no
/// text: nothing is known of it.
pub open spec fn run_outcome<E>(
    shell: Seq<char>,
    cmd: Seq<char>,
    outcome: Result<ProgramOutput, E>,
) -> Result<Seq<char>, ErrorView<E>> {
    match outcome {
        Err(e) => Err(Error { shell, cmd, cause: Cause::Source(e) }),
        Ok(output) => if output.success && valid_utf8(output.stdout@) {
            Ok(decode_utf8(output.stdout@))
        } else if !output.success && valid_utf8(output.stderr@) {
            Err(Error { shell, cmd, cause: Cause::Message(decode_utf8(output.stderr@)) })
        } else {
            Err(Error { shell, cmd, cause: Cause::Unknown })
        },
    }
}

/// `String::from_utf8`: the text that `bytes` encode in UTF-8, where they are valid UTF-8.
#[verifier::external_body]
fn utf8_text(bytes: Vec<u8>) -> (r: Option<String>)
    ensures
        r is Some <==> valid_utf8(bytes@),
        r matches Some(text) ==> text@ == decode_utf8(bytes@),
{
    String::from_utf8(bytes).ok()
}

/// What is returned of a run of `cmd` in `shell`, from what the operating system returned.
pub fn run_program_result<E>(
    shell: &str,
    cmd: &str,
    outcome: Result<ProgramOutput, E>,
) -> (r: Result<String, SubprocessError<E>>)
    ensures
        match r {
            Ok(text) => run_outcome(shell@, cmd@, outcome) matches Ok(t) && t == text@,
            Err(e) => run_outcome(shell@, cmd@, outcome) matches Err(f) && f == e@,
        },
{
    match outcome {
        Err(e) => Err(Error::subprocess_with_err(shell, cmd, e)),
        Ok(output) => {
            if !output.success {
                match utf8_text(output.stderr) {
                    Some(text) => Err(Error::subprocess_with_str(shell, cmd, text.as_str())),
                    None => Err(Error::subprocess(shell, cmd)),
                }
            } else {
                match utf8_text(output.stdout) {
                    Some(text) => Ok(text),
                    None => Err(Error::subprocess(shell, cmd)),
                }
            }
        },
    }
}

/// How `cmd` is started in `shell`, with the variables `env`, by a caller that goes on.
pub fn spawn_program(shell: &str, cmd: &str, env: Environment) -> (r: CommandLine)
    ensures
        r.runs(shell@, cmd@),
        r.env@ == env@,
        r.piped,
{
    shell_command(shell, cmd, env, true)
}

/// How `cmd` is started in `shell` on a report of the player, which the variables describe.
pub fn spawn_program_on_event(shell: &str, cmd: &str, event: PlayerEvent) -> (r: CommandLine)
    ensures
        r.runs(shell@, cmd@),
        r.env@ == event.variables(),
        r.piped,
{
    spawn_program(shell, cmd, event.environment())
}

/// A program that was started: the command, the process, and the shell that runs the command.
/// `S` is the type of texts, `P` that of processes.
#[derive(Debug, PartialEq, Eq)]
pub struct Child<S, P> {
    pub cmd: S,
    pub inner: P,
    pub shell: S,
}

impl<S: View, P> View for Child<S, P> {
    type V = Child<S::V, P>;

    open spec fn view(&self) -> Child<S::V, P> {
        Child { cmd: self.cmd@, inner: self.inner, shell: self.shell@ }
    }
}

/// What starting `cmd` in `shell` comes to: the process that was started, or else an error with
/// what the operating system said.
pub open spec fn start_outcome<P, E>(
    shell: Seq<char>,
    cmd: Seq<char>,
    started: Result<P, E>,
) -> Result<Child<Seq<char>, P>, ErrorView<E>> {
    match started {
        Ok(inner) => Ok(Child { cmd, inner, shell }),
        Err(e) => Err(Error { shell, cmd, cause: Cause::Source(e) }),
    }
}

/// What is returned of starting `cmd` in `shell`, as `spawn_program` and
/// `spawn_program_on_event` say, from what the operating system returned.
pub fn spawn_program_result<P, E>(
    shell: &str,
    cmd: &str,
    started: Result<P, E>,
) -> (r: Result<Child<String, P>, SubprocessError<E>>)
    ensures
        match r {
            Ok(child) => start_outcome(shell@, cmd@, started) matches Ok(c) && c == child@,
            Err(e) => start_outcome(shell@, cmd@, started) matches Err(f) && f == e@,
        },
{
    match started {
        Ok(inner) => Ok(Child::new(cmd.to_owned(), inner, shell.to_owned())),
        Err(e) => Err(Error::subprocess_with_err(shell, cmd, e)),
    }
}

/// Which of the streams that a program writes to can be read from here.
#[derive(Clone, Copy, Debug, PartialEq, Eq, Structural)]
pub struct Pipes {
    pub stdout: bool,
    pub stderr: bool,
}

impl Pipes {
    /// What is wanted of a program that ended can be read: its standard output after a success,
    /// and its standard error otherwise.
    pub open spec fn serve(self, success: bool) -> bool {
        if success {
            self.stdout
        } else {
            self.stderr
        }
    }

    /// Whether what is wanted of a program that ended can be read.
    pub fn can_serve(self, success: bool) -> (r: bool)
        ensures
            r == self.serve(success),
    {
        if success {
            self.stdout
        } else {
            self.stderr
        }
    }
}

/// What is to be done next with the output of a program that has ended.
#[derive(Debug, PartialEq, Eq)]
pub enum OutputStep<S, B, E> {
    /// All that the program wrote to its standard output is to be written to this process's.
    CopyStdout,
    /// This process's standard output is to be flushed.
    FlushStdout,
    /// All that the program wrote to its standard error is to be read.
    ReadStderr,
    /// Nothing is left to do.
    Finished(Result<(), Error<S, B, E>>),
}

/// A step as it is returned.
pub type ChildStep<E> = OutputStep<String, Vec<u8>, E>;

/// A step as the contracts speak of it.
pub type StepView<E> = OutputStep<Seq<char>, Seq<u8>, E>;

impl<S: View, B: View, E> View for OutputStep<S, B, E> {
    type V = OutputStep<S::V, B::V, E>;

    open spec fn view(&self) -> OutputStep<S::V, B::V, E> {
        match *self {
            OutputStep::CopyStdout => OutputStep::CopyStdout,
            OutputStep::FlushStdout => OutputStep::FlushStdout,
            OutputStep::ReadStderr => OutputStep::ReadStderr,
            OutputStep::Finished(Ok(())) => OutputStep::Finished(Ok(())),
            OutputStep::Finished(Err(e)) => OutputStep::Finished(Err(e@)),
        }
    }
}

/// What came of a step.
#[derive(Debug, PartialEq, Eq)]
pub enum OutputEvent<B, E> {
    Copied(Result<u64, E>),
    Flushed(Result<(), E>),
    StderrRead(Result<B, E>),
}

impl<B: View, E> View for OutputEvent<B, E> {
    type V = OutputEvent<B::V, E>;

    open spec fn view(&self) -> OutputEvent<B::V, E> {
        match *self {
            OutputEvent::Copied(r) => OutputEvent::Copied(r),
            OutputEvent::Flushed(r) => OutputEvent::Flushed(r),
            OutputEvent::StderrRead(Ok(bytes)) => OutputEvent::StderrRead(Ok(bytes@)),
            OutputEvent::StderrRead(Err(e)) => OutputEvent::StderrRead(Err(e)),
        }
    }
}

/// What a program wrote of its failure: the text, where it is one, and the bytes otherwise.
pub open spec fn said<E>(bytes: Seq<u8>) -> Cause<Seq<char>, Seq<u8>, E> {
    if valid_utf8(bytes) {
        Cause::Message(decode_utf8(bytes))
    } else {
        Cause::Output(bytes)
    }
}

impl<P> Child<Seq<char>, P> {
    /// The end with an error of the operating system.
    pub open spec fn failed<E>(self, e: E) -> StepView<E> {
        OutputStep::Finished(
            Err(Error { shell: self.shell, cmd: self.cmd, cause: Cause::Source(e) }),
        )
    }

    /// What is to be done with the output once the program has ended.
    pub open spec fn output_begun<E>(self, success: bool) -> StepView<E> {
        if success {
            OutputStep::CopyStdout
        } else {
            OutputStep::ReadStderr
        }
    }

    /// What is to be done after `event`.
    pub open spec fn output_resumed<E>(self, event: OutputEvent<Seq<u8>, E>) -> StepView<E> {
        match event {
            OutputEvent::Copied(Ok(_)) => OutputStep::FlushStdout,
            OutputEvent::Copied(Err(e)) => self.failed(e),
            OutputEvent::Flushed(Ok(_)) => OutputStep::Finished(Ok(())),
            OutputEvent::Flushed(Err(e)) => self.failed(e),
            OutputEvent::StderrRead(Ok(bytes)) => OutputStep::Finished(
                Err(Error { shell: self.shell, cmd: self.cmd, cause: said(bytes) }),
            ),
            OutputEvent::StderrRead(Err(e)) => self.failed(e),
        }
    }
}

impl<P> Child<String, P> {
    /// The process `child`, in which `shell` was started to run `cmd`.
    pub fn new(cmd: String, child: P, shell: String) -> (r: Self)
        ensures
            r@ == (Child { cmd: cmd@, inner: child, shell: shell@ }),
    {
        Child { cmd, inner: child, shell }
    }

    /// The process, given back as it was.
    pub fn into_inner(self) -> (r: P)
        ensures
            r == self@.inner,
    {
        self.inner
    }

    /// What is to be done after waiting for the end of the program: `status` says whether it
    /// ended with success.
    pub fn wait<E>(&self, status: Result<bool, E>, pipes: Pipes) -> (r: ChildStep<E>)
        requires
            status matches Ok(success) ==> pipes.serve(success),
        ensures
            match status {
                Ok(success) => r@ == self@.output_begun::<E>(success),
                Err(e) => r@ == self@.failed(e),
            },
    {
        match status {
            Ok(success) => self.write_output(success, pipes),
            Err(e) => self.fail(e),
        }
    }

    /// What is to be done after a look at whether the program has ended: nothing, where it
    /// still runs.
    pub fn try_wait<E>(&self, status: Result<Option<bool>, E>, pipes: Pipes) -> (r: Option<
        ChildStep<E>,
    >)
        requires
            status matches Ok(Some(success)) ==> pipes.serve(success),
        ensures
            match status {
                Ok(Some(success)) => r is Some && r->0@ == self@.output_begun::<E>(success),
                Ok(None) => r is None,
                Err(e) => r is Some && r->0@ == self@.failed(e),
            },
    {
        match status {
            Ok(Some(success)) => Some(self.write_output(success, pipes)),
            Ok(None) => None,
            Err(e) => Some(self.fail(e)),
        }
    }

    /// What is to be done first with the output of the program, which has ended. What is
    /// wanted of it can be read.
    pub fn write_output<E>(&self, success: bool, pipes: Pipes) -> (r: ChildStep<E>)
        requires
            pipes.serve(success),
        ensures
            r@ == self@.output_begun::<E>(success),
    {
        if success {
            OutputStep::CopyStdout
        } else {
            OutputStep::ReadStderr
        }
    }

    /// What is to be done after a step with the output, of which `event` came.
    pub fn resume_output<E>(&self, event: OutputEvent<Vec<u8>, E>) -> (r: ChildStep<E>)
        ensures
            r@ == self@.output_resumed(event@),
    {
        match event {
            OutputEvent::Copied(Ok(_)) => OutputStep::FlushStdout,
            OutputEvent::Copied(Err(e)) => self.fail(e),
            OutputEvent::Flushed(Ok(_)) => OutputStep::Finished(Ok(())),
            OutputEvent::Flushed(Err(e)) => self.fail(e),
            OutputEvent::StderrRead(Ok(bytes)) => OutputStep::Finished(
                Err(self.program_error(bytes)),
            ),
            OutputEvent::StderrRead(Err(e)) => self.fail(e),
        }
    }

    fn program_error<E>(&self, bytes: Vec<u8>) -> (r: SubprocessError<E>)
        ensures
            r@ == (Error { shell: self@.shell, cmd: self@.cmd, cause: said::<E>(bytes@) }),
    {
        let copy = bytes.clone();
        assert(copy@ =~= bytes@);
        match utf8_text(copy) {
            Some(text) => Error::subprocess_with_str(
                self.shell.as_str(),
                self.cmd.as_str(),
                text.as_str(),
            ),
            None => Error::subprocess_with_output(self.shell.as_str(), self.cmd.as_str(), bytes),
        }
    }

    fn fail<E>(&self, e: E) -> (r: ChildStep<E>)
        ensures
            r@ == self@.failed(e),
    {
        OutputStep::Finished(
            Err(Error::subprocess_with_err(self.shell.as_str(), self.cmd.as_str(), e)),
        )
    }
}

/// A run of a program that fails to end well is never taken for a success, nor the other way
/// round: text is returned exactly where the program succeeded and wrote valid UTF-8.
pub proof fn text_only_of_success<E>(
    shell: Seq<char>,
    cmd: Seq<char>,
    outcome: Result<ProgramOutput, E>,
)
    ensures
        run_outcome(shell, cmd, outcome) is Ok <==> (outcome matches Ok(output) && output.success
            && valid_utf8(output.stdout@)),
{
}

/// Every error of a run names the shell and the command.
pub proof fn run_errors_name_the_command<E>(
    shell: Seq<char>,
    cmd: Seq<char>,
    outcome: Result<ProgramOutput, E>,
)
    ensures
        run_outcome(shell, cmd, outcome) matches Err(e) ==> e.shell == shell && e.cmd == cmd,
{
}

/// Every error of a start names the shell and the command, and so does every program that was
/// started: what becomes of its output is then reported under the same names.
pub proof fn starts_name_the_command<P, E>(shell: Seq<char>, cmd: Seq<char>, started: Result<P, E>)
    ensures
        match start_outcome(shell, cmd, started) {
            Ok(child) => child.shell == shell && child.cmd == cmd,
            Err(e) => e.shell == shell && e.cmd == cmd,
        },
{
}

/// Only a stream that can be read is ever copied or read.
pub proof fn only_open_pipes_are_read<P, E>(
    child: Child<Seq<char>, P>,
    success: bool,
    pipes: Pipes,
    event: OutputEvent<Seq<u8>, E>,
)
    requires
        pipes.serve(success),
    ensures
        child.output_begun::<E>(success) is CopyStdout ==> pipes.stdout,
        child.output_begun::<E>(success) is ReadStderr ==> pipes.stderr,
        !(child.output_resumed(event) is CopyStdout),
        !(child.output_resumed(event) is ReadStderr),
{
}

/// What a started program comes to, where copying, flushing and reading end as given.
pub open spec fn child_outcome<P, E>(
    child: Child<Seq<char>, P>,
    success: bool,
    copied: Result<u64, E>,
    flushed: Result<(), E>,
    stderr: Result<Seq<u8>, E>,
) -> StepView<E> {
    match child.output_begun::<E>(success) {
        OutputStep::CopyStdout => match child.output_resumed(OutputEvent::Copied(copied)) {
            OutputStep::FlushStdout => child.output_resumed(OutputEvent::Flushed(flushed)),
            end => end,
        },
        OutputStep::ReadStderr => child.output_resumed(OutputEvent::StderrRead(stderr)),
        end => end,
    }
}

/// The output of a program that succeeded is copied and then flushed, and nothing else: the
/// end is a success exactly where both went well.
pub proof fn success_is_copied_and_flushed<P, E>(
    child: Child<Seq<char>, P>,
    copied: Result<u64, E>,
    flushed: Result<(), E>,
    stderr: Result<Seq<u8>, E>,
)
    ensures
        child_outcome(child, true, copied, flushed, stderr) is Finished,
        child_outcome(child, true, copied, flushed, stderr)->Finished_0 is Ok <==> copied is Ok
            && flushed is Ok,
{
}

/// `cause` holds `bytes`: as they are, or as the text that they encode.
pub open spec fn includes<E>(cause: Cause<Seq<char>, Seq<u8>, E>, bytes: Seq<u8>) -> bool {
    match cause {
        Cause::Message(text) => encode_utf8(text) == bytes,
        Cause::Output(b) => b == bytes,
        _ => false,
    }
}

/// A program that failed ends with an error. The error holds all that the program wrote to its
/// standard error wherever that could be read, whether it is text or not, and the command and
/// the shell in any case.
pub proof fn failure_is_reported<P, E>(
    child: Child<Seq<char>, P>,
    copied: Result<u64, E>,
    flushed: Result<(), E>,
    stderr: Result<Seq<u8>, E>,
)
    ensures
        ({
            let end = child_outcome(child, false, copied, flushed, stderr);
            &&& end matches OutputStep::Finished(Err(e))
            &&& e.shell == child.shell
            &&& e.cmd == child.cmd
            &&& stderr matches Ok(bytes) ==> includes(e.cause, bytes)
            &&& stderr matches Err(f) ==> e.cause == Cause::<Seq<char>, Seq<u8>, E>::Source(f)
        }),
{
    if let Ok(bytes) = stderr {
        if valid_utf8(bytes) {
            decode_utf8_encode_utf8(bytes);
        }
    }
}

/// Every error of a started program names the shell and the command.
pub proof fn child_errors_name_the_command<P, E>(
    child: Child<Seq<char>, P>,
    success: bool,
    copied: Result<u64, E>,
    flushed: Result<(), E>,
    stderr: Result<Seq<u8>, E>,
)
    ensures
        child_outcome(child, success, copied, flushed, stderr) matches OutputStep::Finished(Err(e))
            ==> e.shell == child.shell && e.cmd == child.cmd,
{
}

/// What it means that the shell runs the command: the shell is started with two arguments, `-c`
/// and the command.
pub proof fn commands_are_handed_to_the_shell(
    line: CommandLine,
    shell: Seq<char>,
    cmd: Seq<char>,
)
    ensures
        line.runs(shell, cmd) <==> {
            &&& line.program@ == shell
            &&& line.args@.len() == 2
            &&& line.args@[0]@ == "-c"@
            &&& line.args@[1]@ == cmd
        },
{
}

/// A run returns what the program wrote: after a success, the text that encodes to the very
/// bytes of its standard output, whatever it wrote to its standard error; after a failure, an
/// error with the text that encodes to the very bytes of its standard error, whatever it wrote
/// to its standard output. Where those bytes are no text nothing is known, and where the program
/// was not run at all, what the operating system said.
pub proof fn runs_return_what_was_written<E>(
    shell: Seq<char>,
    cmd: Seq<char>,
    output: ProgramOutput,
    e: E,
)
    ensures
        output.success && valid_utf8(output.stdout@) ==> {
            &&& run_outcome::<E>(shell, cmd, Ok(output)) matches Ok(text)
            &&& encode_utf8(text) == output.stdout@
        },
        !output.success && valid_utf8(output.stderr@) ==> {
            &&& run_outcome::<E>(shell, cmd, Ok(output)) matches Err(error)
            &&& error.shell == shell
            &&& error.cmd == cmd
            &&& error.cause matches Cause::Message(text)
            &&& encode_utf8(text) == output.stderr@
        },
        (if output.success {
            !valid_utf8(output.stdout@)
        } else {
            !valid_utf8(output.stderr@)
        }) ==> {
            &&& run_outcome::<E>(shell, cmd, Ok(output)) matches Err(error)
            &&& error.shell == shell
            &&& error.cmd == cmd
            &&& error.cause is Unknown
        },
        run_outcome(shell, cmd, Err(e)) matches Err(error) && error.shell == shell && error.cmd
            == cmd && error.cause == Cause::<Seq<char>, Seq<u8>, E>::Source(e),
{
    if valid_utf8(output.stdout@) {
        decode_utf8_encode_utf8(output.stdout@);
    }
    if valid_utf8(output.stderr@) {
        decode_utf8_encode_utf8(output.stderr@);
    }
}

/// A run that writes a text returns that text: writing and reading undo each other.
pub proof fn text_written_is_text_returned<E>(
    shell: Seq<char>,
    cmd: Seq<char>,
    output: ProgramOutput,
    text: Seq<char>,
)
    ensures
        output.success && output.stdout@ == encode_utf8(text) ==> run_outcome::<E>(
            shell,
            cmd,
            Ok(output),
        ) == Ok::<Seq<char>, ErrorView<E>>(text),
        !output.success && output.stderr@ == encode_utf8(text) ==> run_outcome::<E>(
            shell,
            cmd,
            Ok(output),
        ) == Err::<Seq<char>, ErrorView<E>>(Error { shell, cmd, cause: Cause::Message(text) }),
{
    encode_utf8_valid_utf8(text);
    encode_utf8_decode_utf8(text);
}

/// Starting a program gives the process that was started, with the command and the shell that
/// it was started with, or else the error of the operating system under the same names.
pub proof fn starts_return_the_process<P, E>(shell: Seq<char>, cmd: Seq<char>, inner: P, e: E)
    ensures
        start_outcome::<P, E>(shell, cmd, Ok(inner)) matches Ok(child) && child.inner == inner
            && child.cmd == cmd && child.shell == shell,
        start_outcome::<P, E>(shell, cmd, Err(e)) matches Err(error) && error.shell == shell
            && error.cmd == cmd && error.cause == Cause::<Seq<char>, Seq<u8>, E>::Source(e),
{
}

/// What becomes of the output of a program, step by step. After a success its standard output
/// is copied, then flushed, and that is all; after a failure its standard error is read and
/// reported, as the text that encodes to the bytes that were read, or as those bytes where they
/// are no text. An error of the operating system ends it at any step, and is reported as it is.
pub proof fn output_is_dealt_with<P, E>(
    child: Child<Seq<char>, P>,
    copied: u64,
    bytes: Seq<u8>,
    e: E,
)
    ensures
        child.output_begun::<E>(true) is CopyStdout,
        child.output_begun::<E>(false) is ReadStderr,
        child.output_resumed::<E>(OutputEvent::Copied(Ok(copied))) is FlushStdout,
        child.output_resumed::<E>(OutputEvent::Flushed(Ok(()))) == StepView::<E>::Finished(Ok(())),
        child.output_resumed::<E>(OutputEvent::StderrRead(Ok(bytes))) matches OutputStep::Finished(
            Err(error),
        ) && error.shell == child.shell && error.cmd == child.cmd && if valid_utf8(bytes) {
            error.cause matches Cause::Message(text) && encode_utf8(text) == bytes
        } else {
            error.cause matches Cause::Output(b) && b == bytes
        },
        forall|event: OutputEvent<Seq<u8>, E>|
            event == OutputEvent::<Seq<u8>, E>::Copied(Err(e)) || event == OutputEvent::<
                Seq<u8>,
                E,
            >::Flushed(Err(e)) || event == OutputEvent::<Seq<u8>, E>::StderrRead(Err(e))
                ==> #[trigger] child.output_resumed(event) == StepView::<E>::Finished(
                Err(Error { shell: child.shell, cmd: child.cmd, cause: Cause::Source(e) }),
            ),
        child.failed(e) == StepView::<E>::Finished(
            Err(Error { shell: child.shell, cmd: child.cmd, cause: Cause::Source(e) }),
        ),
{
    if valid_utf8(bytes) {
        decode_utf8_encode_utf8(bytes);
    }
}

/// The standard output is wanted of a program that succeeded, the standard error of one that
/// failed.
pub proof fn one_pipe_is_wanted(pipes: Pipes)
    ensures
        pipes.serve(true) == pipes.stdout,
        pipes.serve(false) == pipes.stderr,
{
}

/// Contracts speak of a started program by the texts of its command and shell, and by its
/// process.
pub proof fn child_view_keeps_fields<S: View, P>(child: Child<S, P>)
    ensures
        child@.cmd == child.cmd@,
        child@.inner == child.inner,
        child@.shell == child.shell@,
{
}

/// Contracts speak of a step by its kind, and of the end by its error.
pub proof fn step_view_keeps_fields<E>(step: ChildStep<E>)
    ensures
        match step {
            OutputStep::CopyStdout => step@ is CopyStdout,
            OutputStep::FlushStdout => step@ is FlushStdout,
            OutputStep::ReadStderr => step@ is ReadStderr,
            OutputStep::Finished(Ok(())) => step@ == StepView::<E>::Finished(Ok(())),
            OutputStep::Finished(Err(e)) => step@ == StepView::<E>::Finished(Err(e@)),
        },
{
}

/// Contracts speak of what came of a step by its kind and by all that it holds.
pub proof fn event_view_keeps_fields<E>(event: OutputEvent<Vec<u8>, E>)
    ensures
        match event {
            OutputEvent::Copied(r) => event@ == OutputEvent::<Seq<u8>, E>::Copied(r),
            OutputEvent::Flushed(r) => event@ == OutputEvent::<Seq<u8>, E>::Flushed(r),
            OutputEvent::StderrRead(Ok(bytes)) => event@ == OutputEvent::<Seq<u8>, E>::StderrRead(
                Ok(bytes@),
            ),
            OutputEvent::StderrRead(Err(e)) => event@ == OutputEvent::<Seq<u8>, E>::StderrRead(
                Err(e),
            ),
        },
{
}

} // verus!
