//! What one run of a command came to.
//!
//! The caller starts the child process, waits for it and reports what it
//! saw as a [`Completion`]. [`classify`] turns that into an [`Outcome`]: the
//! captured bytes are decoded as text, and the exit status is judged.

use vstd::prelude::*;
use vstd::utf8::{decode_utf8, valid_utf8};

verus! {

/// Why one run of a command failed.
#[derive(Clone, Copy, Debug, PartialEq, Eq, Structural)]
pub enum Cause {
    /// The program could not be found or launched.
    Spawn,
    /// The captured output was not valid text.
    Encoding,
    /// The program ended with a status other than zero; `code` is absent
    /// where it ended without one.
    Exit { code: Option<i32> },
    /// The program was still running when its deadline passed.
    Deadline,
}

/// What the caller observed of one child process.
#[derive(Clone, Debug, PartialEq, Eq)]
pub enum Completion {
    /// The process could not be started.
    NotStarted,
    /// The deadline passed and the process was terminated.
    DeadlineElapsed,
    /// The process ran to its end.
    Exited { code: Option<i32>, stdout: Vec<u8> },
}

/// The mathematical value of a [`Completion`].
pub enum CompletionView {
    NotStarted,
    DeadlineElapsed,
    Exited { code: Option<i32>, stdout: Seq<u8> },
}

impl View for Completion {
    type V = CompletionView;

    open spec fn view(&self) -> CompletionView {
        match self {
            Completion::NotStarted => CompletionView::NotStarted,
            Completion::DeadlineElapsed => CompletionView::DeadlineElapsed,
            Completion::Exited { code, stdout } => CompletionView::Exited {
                code: *code,
                stdout: stdout@,
            },
        }
    }
}

/// The result of one run of a command.
#[derive(Clone, Debug, PartialEq, Eq)]
pub enum Outcome {
    /// The program ended with status zero; `text` is what it printed.
    Succeeded { text: String },
    /// The program could not be found or launched.
    SpawnError,
    /// The program ended, and what it printed was not valid text.
    EncodingError,
    /// The program printed `text` and ended with a status other than zero.
    NonZeroExit { code: Option<i32>, text: String },
    /// The program was terminated at its deadline.
    TimedOut,
}

/// The mathematical value of an [`Outcome`].
pub enum OutcomeView {
    Succeeded { text: Seq<char> },
    SpawnError,
    EncodingError,
    NonZeroExit { code: Option<i32>, text: Seq<char> },
    TimedOut,
}

impl View for Outcome {
    type V = OutcomeView;

    open spec fn view(&self) -> OutcomeView {
        match self {
            Outcome::Succeeded { text } => OutcomeView::Succeeded { text: text@ },
            Outcome::SpawnError => OutcomeView::SpawnError,
            Outcome::EncodingError => OutcomeView::EncodingError,
            Outcome::NonZeroExit { code, text } => OutcomeView::NonZeroExit {
                code: *code,
                text: text@,
            },
            Outcome::TimedOut => OutcomeView::TimedOut,
        }
    }
}

impl OutcomeView {
    /// Why the run failed, if it did.
    pub open spec fn failure(self) -> Option<Cause> {
        match self {
            OutcomeView::Succeeded { .. } => None,
            OutcomeView::SpawnError => Some(Cause::Spawn),
            OutcomeView::EncodingError => Some(Cause::Encoding),
            OutcomeView::NonZeroExit { code, .. } => Some(Cause::Exit { code }),
            OutcomeView::TimedOut => Some(Cause::Deadline),
        }
    }

    /// The text that the program printed, where it was captured and decoded.
    pub open spec fn text(self) -> Option<Seq<char>> {
        match self {
            OutcomeView::Succeeded { text } => Some(text),
            OutcomeView::NonZeroExit { text, .. } => Some(text),
            _ => None,
        }
    }
}

impl Outcome {
    /// Why the run failed; `None` for a run that succeeded.
    pub fn failure(&self) -> (cause: Option<Cause>)
        ensures
            cause == self@.failure(),
    {
        match self {
            Outcome::Succeeded { .. } => None,
            Outcome::SpawnError => Some(Cause::Spawn),
            Outcome::EncodingError => Some(Cause::Encoding),
            Outcome::NonZeroExit { code, .. } => Some(Cause::Exit { code: *code }),
            Outcome::TimedOut => Some(Cause::Deadline),
        }
    }

    /// Whether the run succeeded.
    pub fn is_success(&self) -> (ok: bool)
        ensures
            ok == (self@.failure() is None),
    {
        match self {
            Outcome::Succeeded { .. } => true,
            _ => false,
        }
    }
}

/// The outcome that a completion stands for.
///
/// A process that did not start is a spawn error, one that was stopped at
/// its deadline has timed out. Of one that ended, the output is decoded
/// first: bytes that are no UTF-8 make an encoding error whatever the
/// status was; otherwise status zero is success and anything else a
/// non-zero exit that still carries the text.
pub open spec fn classified(completion: CompletionView) -> OutcomeView {
    match completion {
        CompletionView::NotStarted => OutcomeView::SpawnError,
        CompletionView::DeadlineElapsed => OutcomeView::TimedOut,
        CompletionView::Exited { code, stdout } => {
            if !valid_utf8(stdout) {
                OutcomeView::EncodingError
            } else if code == Some(0i32) {
                OutcomeView::Succeeded { text: decode_utf8(stdout) }
            } else {
                OutcomeView::NonZeroExit { code, text: decode_utf8(stdout) }
            }
        },
    }
}

/// Decodes bytes as UTF-8 with `String::from_utf8`, which returns the
/// string that the bytes encode, or an error where they are not UTF-8. The
/// error is dropped: `None` stands for it.
#[verifier::external_body]
fn decode_text(bytes: Vec<u8>) -> (text: Option<String>)
    ensures
        text is Some <==> valid_utf8(bytes@),
        text matches Some(s) ==> s@ == decode_utf8(bytes@),
{
    String::from_utf8(bytes).ok()
}

/// Judges what the caller observed of a child process.
pub fn classify(completion: Completion) -> (outcome: Outcome)
    ensures
        outcome@ == classified(completion@),
{
    match completion {
        Completion::NotStarted => Outcome::SpawnError,
        Completion::DeadlineElapsed => Outcome::TimedOut,
        Completion::Exited { code, stdout } => {
            match decode_text(stdout) {
                None => Outcome::EncodingError,
                Some(text) => {
                    match code {
                        Some(0) => Outcome::Succeeded { text },
                        _ => Outcome::NonZeroExit { code, text },
                    }
                },
            }
        },
    }
}

} // verus!
