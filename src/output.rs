//! Delivery of the final text: which side effects run, and in what order.

use vstd::prelude::*;
use crate::error::VoiceError;

verus! {

/// How the final text is delivered.
#[derive(Clone, Copy, Debug, PartialEq, Eq, Structural)]
pub enum OutputMode {
    /// Simulate keystrokes.
    Type,
    /// Write to the system clipboard.
    Clipboard,
    /// Write to the clipboard, then simulate keystrokes.
    Both,
}

/// One delivery side effect.
#[derive(Clone, Copy, Debug, PartialEq, Eq, Structural)]
pub enum OutputAction {
    CopyToClipboard,
    TypeText,
}

/// The side effects of a mode, in the order they run; a failure stops the rest.
pub open spec fn actions_for(mode: OutputMode) -> Seq<OutputAction> {
    match mode {
        OutputMode::Type => seq![OutputAction::TypeText],
        OutputMode::Clipboard => seq![OutputAction::CopyToClipboard],
        OutputMode::Both => seq![OutputAction::CopyToClipboard, OutputAction::TypeText],
    }
}

/// The side effects to run for a mode, in order.
pub fn output_actions(mode: OutputMode) -> (r: Vec<OutputAction>)
    ensures
        r@ == actions_for(mode),
{
    let mut r: Vec<OutputAction> = Vec::new();
    match mode {
        OutputMode::Type => {
            r.push(OutputAction::TypeText);
        },
        OutputMode::Clipboard => {
            r.push(OutputAction::CopyToClipboard);
        },
        OutputMode::Both => {
            r.push(OutputAction::CopyToClipboard);
            r.push(OutputAction::TypeText);
        },
    }
    assert(r@ =~= actions_for(mode));
    r
}

/// What delivery does next.
pub enum OutputStep {
    /// Run this action.
    Run(OutputAction),
    /// Every action succeeded.
    Done,
    /// An action failed; nothing more runs.
    Failed(VoiceError),
}

/// The next step of delivery for `mode`, after `done` actions succeeded and
/// the latest attempt gave `last` (`Ok` before the first attempt): a failure
/// ends delivery with that error, otherwise the next action runs, or
/// delivery is done.
pub fn next_output_step(mode: OutputMode, done: usize, last: Result<(), VoiceError>) -> (r:
    OutputStep)
    requires
        done <= actions_for(mode).len(),
    ensures
        last is Err ==> r == OutputStep::Failed(last->Err_0),
        last is Ok && done < actions_for(mode).len() ==> r == OutputStep::Run(
            actions_for(mode)[done as int],
        ),
        last is Ok && done == actions_for(mode).len() ==> r is Done,
{
    if let Err(e) = last {
        return OutputStep::Failed(e);
    }
    let actions = output_actions(mode);
    if done < actions.len() {
        OutputStep::Run(actions[done])
    } else {
        OutputStep::Done
    }
}

/// In `Both` mode the clipboard is written strictly before any keystroke is
/// simulated: every clipboard action precedes every typing action.
pub proof fn lemma_both_copies_before_typing()
    ensures
        forall|i: int, j: int|
            0 <= i < actions_for(OutputMode::Both).len() && 0 <= j < actions_for(
                OutputMode::Both,
            ).len() && #[trigger] actions_for(OutputMode::Both)[i] == OutputAction::CopyToClipboard
                && #[trigger] actions_for(OutputMode::Both)[j] == OutputAction::TypeText ==> i < j,
        actions_for(OutputMode::Both).contains(OutputAction::CopyToClipboard),
        actions_for(OutputMode::Both).contains(OutputAction::TypeText),
{
    let a = actions_for(OutputMode::Both);
    assert(a[0] == OutputAction::CopyToClipboard);
    assert(a[1] == OutputAction::TypeText);
}

} // verus!
