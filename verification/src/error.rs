//! What can go wrong with a program that is run in a shell.
use vstd::prelude::*;

verus! {

/// What is known of the reason for a failure. `S` is the type of texts, `B` that of bytes, `E`
/// that of the errors of the operating system.
#[derive(Debug, PartialEq, Eq)]
pub enum Cause<S, B, E> {
    /// Nothing is known.
    Unknown,
    /// What the program said of it.
    Message(S),
    /// What the program wrote of it, which is no text.
    Output(B),
    /// What the operating system said of it.
    Source(E),
}

/// A program that could not be run, or that failed: the shell that it was to run in, the
/// command that the shell was given, and the cause.
#[derive(Debug, PartialEq, Eq)]
pub struct Error<S, B, E> {
    pub shell: S,
    pub cmd: S,
    pub cause: Cause<S, B, E>,
}

/// An error of a program, as it is returned.
pub type SubprocessError<E> = Error<String, Vec<u8>, E>;

/// An error of a program, as the contracts speak of it.
pub type ErrorView<E> = Error<Seq<char>, Seq<u8>, E>;

impl<S: View, B: View, E> View for Cause<S, B, E> {
    type V = Cause<S::V, B::V, E>;

    open spec fn view(&self) -> Cause<S::V, B::V, E> {
        match *self {
            Cause::Unknown => Cause::Unknown,
            Cause::Message(text) => Cause::Message(text@),
            Cause::Output(bytes) => Cause::Output(bytes@),
            Cause::Source(e) => Cause::Source(e),
        }
    }
}

impl<S: View, B: View, E> View for Error<S, B, E> {
    type V = Error<S::V, B::V, E>;

    open spec fn view(&self) -> Error<S::V, B::V, E> {
        Error { shell: self.shell@, cmd: self.cmd@, cause: self.cause@ }
    }
}

impl<E> Error<String, Vec<u8>, E> {
    /// A failure of which nothing is known.
    pub fn subprocess(shell: &str, cmd: &str) -> (r: Self)
        ensures
            r@ == (Error { shell: shell@, cmd: cmd@, cause: Cause::<Seq<char>, Seq<u8>, E>::Unknown }),
    {
        Error { shell: shell.to_owned(), cmd: cmd.to_owned(), cause: Cause::Unknown }
    }

    /// A failure that the program said something of.
    pub fn subprocess_with_str(shell: &str, cmd: &str, text: &str) -> (r: Self)
        ensures
            r@ == (Error {
                shell: shell@,
                cmd: cmd@,
                cause: Cause::<Seq<char>, Seq<u8>, E>::Message(text@),
            }),
    {
        Error {
            shell: shell.to_owned(),
            cmd: cmd.to_owned(),
            cause: Cause::Message(text.to_owned()),
        }
    }

    /// A failure that the program wrote something of, which is no text.
    pub fn subprocess_with_output(shell: &str, cmd: &str, bytes: Vec<u8>) -> (r: Self)
        ensures
            r@ == (Error {
                shell: shell@,
                cmd: cmd@,
                cause: Cause::<Seq<char>, Seq<u8>, E>::Output(bytes@),
            }),
    {
        Error { shell: shell.to_owned(), cmd: cmd.to_owned(), cause: Cause::Output(bytes) }
    }

    /// A failure that the operating system said something of.
    pub fn subprocess_with_err(shell: &str, cmd: &str, e: E) -> (r: Self)
        ensures
            r@ == (Error {
                shell: shell@,
                cmd: cmd@,
                cause: Cause::<Seq<char>, Seq<u8>, E>::Source(e),
            }),
    {
        Error { shell: shell.to_owned(), cmd: cmd.to_owned(), cause: Cause::Source(e) }
    }
}

/// Contracts speak of an error by the texts of the shell and the command, and by its cause with
/// all that the cause holds.
pub proof fn error_view_keeps_fields<S: View, B: View, E>(error: Error<S, B, E>)
    ensures
        error@.shell == error.shell@,
        error@.cmd == error.cmd@,
        match error.cause {
            Cause::Unknown => error@.cause is Unknown,
            Cause::Message(text) => error@.cause == Cause::<S::V, B::V, E>::Message(text@),
            Cause::Output(bytes) => error@.cause == Cause::<S::V, B::V, E>::Output(bytes@),
            Cause::Source(e) => error@.cause == Cause::<S::V, B::V, E>::Source(e),
        },
{
}

} // verus!
