//! Removing the installed program, step by step.
//!
//! The library decides; the caller acts. The caller starts with
//! [`start`], performs the action it is given, reports what came of it as
//! an [`Event`], and gets the next action from [`step`], until the action
//! is to finish. The program file is removed only after the user has said
//! yes.

use vstd::prelude::*;
use vstd::string::*;

use crate::confirm::{affirmative, is_affirmative};

verus! {

/// Where the removal stands: what the library is waiting to hear.
#[derive(Clone, Copy, Debug, PartialEq, Eq, Structural)]
pub enum Stage {
    /// Waiting for the path of the running program.
    Locating,
    /// Waiting for the user's answer.
    Confirming,
    /// Waiting for the result of removing the file.
    Removing,
    /// Nothing is left to do.
    Finished,
}

/// How the removal ended.
#[derive(Clone, Copy, Debug, PartialEq, Eq, Structural)]
pub enum Outcome {
    /// The program file was removed.
    Uninstalled,
    /// The user did not say yes. Nothing was removed.
    Cancelled,
    /// The path of the running program could not be found.
    PathUnknown,
    /// The user's answer could not be read.
    AnswerUnread,
    /// The program file could not be removed.
    RemovalFailed,
}

/// What the caller does next.
#[derive(Clone, Copy, Debug, PartialEq, Eq, Structural)]
pub enum Action {
    /// Find the path of the running program.
    Locate,
    /// Show the prompt and read one line from the user.
    Ask,
    /// Remove the program file.
    Remove,
    /// Report the outcome and exit.
    Finish(Outcome),
}

/// What came of the last action.
#[derive(Clone, Copy, Debug)]
pub enum Event<'a> {
    /// The path of the running program was found.
    Located,
    /// The user answered with this line.
    Answered(&'a str),
    /// The program file was removed.
    Removed,
    /// The action failed.
    Failed,
}

/// An event as the contracts see it: an answer is its text.
pub enum EventView {
    Located,
    Answered(Seq<char>),
    Removed,
    Failed,
}

impl<'a> View for Event<'a> {
    type V = EventView;

    open spec fn view(&self) -> EventView {
        match *self {
            Event::Located => EventView::Located,
            Event::Answered(answer) => EventView::Answered(answer@),
            Event::Removed => EventView::Removed,
            Event::Failed => EventView::Failed,
        }
    }
}

/// The next stage and action after an event, or `None` where the event
/// cannot follow the action of that stage.
pub open spec fn next(stage: Stage, event: EventView) -> Option<(Stage, Action)> {
    match (stage, event) {
        (Stage::Locating, EventView::Located) => Some((Stage::Confirming, Action::Ask)),
        (Stage::Locating, EventView::Failed) => Some(
            (Stage::Finished, Action::Finish(Outcome::PathUnknown)),
        ),
        (Stage::Confirming, EventView::Answered(answer)) => if affirmative(answer) {
            Some((Stage::Removing, Action::Remove))
        } else {
            Some((Stage::Finished, Action::Finish(Outcome::Cancelled)))
        },
        (Stage::Confirming, EventView::Failed) => Some(
            (Stage::Finished, Action::Finish(Outcome::AnswerUnread)),
        ),
        (Stage::Removing, EventView::Removed) => Some(
            (Stage::Finished, Action::Finish(Outcome::Uninstalled)),
        ),
        (Stage::Removing, EventView::Failed) => Some(
            (Stage::Finished, Action::Finish(Outcome::RemovalFailed)),
        ),
        _ => None,
    }
}

/// The exit code of an outcome: `0` where nothing went wrong, `1` otherwise.
/// To cancel is not an error.
pub open spec fn exit_code_of(outcome: Outcome) -> int {
    match outcome {
        Outcome::Uninstalled | Outcome::Cancelled => 0,
        _ => 1,
    }
}

/// The first stage and action: find the path of the running program.
pub fn start() -> (first: (Stage, Action))
    ensures
        first == (Stage::Locating, Action::Locate),
{
    (Stage::Locating, Action::Locate)
}

/// Decides what follows an event. Returns `None` where the event cannot
/// follow the action of the stage; the caller then made a mistake, and
/// nothing is to be done.
pub fn step(stage: Stage, event: &Event) -> (then: Option<(Stage, Action)>)
    ensures
        then == next(stage, event@),
{
    match stage {
        Stage::Locating => match event {
            Event::Located => Some((Stage::Confirming, Action::Ask)),
            Event::Failed => Some((Stage::Finished, Action::Finish(Outcome::PathUnknown))),
            _ => None,
        },
        Stage::Confirming => match event {
            Event::Answered(answer) => if is_affirmative(answer) {
                Some((Stage::Removing, Action::Remove))
            } else {
                Some((Stage::Finished, Action::Finish(Outcome::Cancelled)))
            },
            Event::Failed => Some((Stage::Finished, Action::Finish(Outcome::AnswerUnread))),
            _ => None,
        },
        Stage::Removing => match event {
            Event::Removed => Some((Stage::Finished, Action::Finish(Outcome::Uninstalled))),
            Event::Failed => Some((Stage::Finished, Action::Finish(Outcome::RemovalFailed))),
            _ => None,
        },
        Stage::Finished => None,
    }
}

impl Outcome {
    /// The exit code of the process: `0` where nothing went wrong, `1`
    /// otherwise.
    pub fn exit_code(self) -> (code: i32)
        ensures
            code == exit_code_of(self),
    {
        match self {
            Outcome::Uninstalled | Outcome::Cancelled => 0,
            _ => 1,
        }
    }

    /// Whether the outcome is an error, to be reported as one.
    pub fn is_error(self) -> (error: bool)
        ensures
            error <==> exit_code_of(self) != 0,
    {
        match self {
            Outcome::Uninstalled | Outcome::Cancelled => false,
            _ => true,
        }
    }
}

/// The prompt that asks whether to remove the program at `path`.
pub open spec fn prompt_of(path: Seq<char>) -> Seq<char> {
    "Remove 'bk' from "@ + path + "? (y/N): "@
}

/// The line that reports an outcome. An error names its `cause`; a failed
/// removal also names the file at `path` and says what the user can do.
pub open spec fn report_of(outcome: Outcome, path: Seq<char>, cause: Seq<char>) -> Seq<char> {
    match outcome {
        Outcome::Uninstalled => "\u{2713} Successfully uninstalled bk. Thank you for using it!"@,
        Outcome::Cancelled => "Uninstall cancelled."@,
        Outcome::PathUnknown | Outcome::AnswerUnread => "Error: "@ + cause,
        Outcome::RemovalFailed => "Error: "@ + cause + "\nCould not remove "@ + path
            + ". Try again with elevated privileges, or remove the file by hand."@,
    }
}

/// The prompt that asks whether to remove the program at `path`. It ends
/// without a line feed: the answer is typed on the same line.
pub fn prompt(path: &str) -> (text: String)
    ensures
        text@ == prompt_of(path@),
{
    let mut text = "Remove 'bk' from ".to_owned();
    text.append(path);
    text.append("? (y/N): ");
    text
}

/// The line that reports an outcome, without a line feed at its end. The
/// outcomes with exit code `0` are reported as they are. An error is
/// reported with its cause, and a failed removal with a hint as well.
pub fn report(outcome: Outcome, path: &str, cause: &str) -> (text: String)
    ensures
        text@ == report_of(outcome, path@, cause@),
{
    match outcome {
        Outcome::Uninstalled => {
            "\u{2713} Successfully uninstalled bk. Thank you for using it!".to_owned()
        },
        Outcome::Cancelled => "Uninstall cancelled.".to_owned(),
        Outcome::PathUnknown | Outcome::AnswerUnread => {
            let mut text = "Error: ".to_owned();
            text.append(cause);
            text
        },
        Outcome::RemovalFailed => {
            let mut text = "Error: ".to_owned();
            text.append(cause);
            text.append("\nCould not remove ");
            text.append(path);
            text.append(". Try again with elevated privileges, or remove the file by hand.");
            text
        },
    }
}

/// Whether the action that follows an event is to remove the file.
pub open spec fn removes(stage: Stage, event: EventView) -> bool {
    match next(stage, event) {
        Some((_, Action::Remove)) => true,
        _ => false,
    }
}

/// Whether an event is an answer that says yes.
pub open spec fn says_yes(event: EventView) -> bool {
    match event {
        EventView::Answered(answer) => affirmative(answer),
        _ => false,
    }
}

/// The file is removed only after a yes: the action is to remove exactly
/// when the event is an answer that says yes, given while confirming.
pub proof fn lemma_removes_only_on_yes(stage: Stage, event: EventView)
    ensures
        removes(stage, event) <==> stage == Stage::Confirming && says_yes(event),
{
}

/// An answer that does not say yes cancels: whatever the stage, nothing is
/// removed, and while confirming the outcome is `Cancelled`, with exit code
/// `0`.
pub proof fn lemma_declined_cancels(stage: Stage, answer: Seq<char>)
    requires
        !affirmative(answer),
    ensures
        !removes(stage, EventView::Answered(answer)),
        next(Stage::Confirming, EventView::Answered(answer)) == Some(
            (Stage::Finished, Action::Finish(Outcome::Cancelled)),
        ),
        exit_code_of(Outcome::Cancelled) == 0,
{
}

/// After a yes the file is removed, and what follows goes by the result: a
/// removed file ends with exit code `0`, a failure with a code that is not
/// `0`.
pub proof fn lemma_confirmed_removes(answer: Seq<char>)
    requires
        affirmative(answer),
    ensures
        next(Stage::Confirming, EventView::Answered(answer)) == Some(
            (Stage::Removing, Action::Remove),
        ),
        next(Stage::Removing, EventView::Removed) == Some(
            (Stage::Finished, Action::Finish(Outcome::Uninstalled)),
        ),
        next(Stage::Removing, EventView::Failed) == Some(
            (Stage::Finished, Action::Finish(Outcome::RemovalFailed)),
        ),
        exit_code_of(Outcome::Uninstalled) == 0,
        exit_code_of(Outcome::RemovalFailed) != 0,
{
}

/// The outcome that an event ends the removal with, if it ends it.
pub open spec fn ends_with(stage: Stage, event: EventView) -> Option<Outcome> {
    match next(stage, event) {
        Some((Stage::Finished, Action::Finish(outcome))) => Some(outcome),
        _ => None,
    }
}

/// Every failure ends the removal at once, with an exit code that is not
/// `0`, and nothing follows the end.
pub proof fn lemma_failure_ends(stage: Stage, event: EventView)
    ensures
        event is Failed && stage != Stage::Finished ==> ends_with(stage, event) is Some
            && exit_code_of(ends_with(stage, event).unwrap()) != 0,
        next(Stage::Finished, event) is None,
{
}

} // verus!
