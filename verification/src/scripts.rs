//! Running a script: when it may go on, what its commands report, and how it ends.
use vstd::prelude::*;

use crate::device::{WorkerEvent, WorkerEventView};
use crate::text::{
    concat2, concat4, contains, lemma_occurs_between, lemma_views_empty, lemma_views_push, occurs,
    option_view, outcome_view, same, views,
};

verus! {

broadcast use {lemma_views_empty, lemma_views_push};

/// The code that runs before every script.
pub const SCRIPT_PRELUDE: &'static str = "
globalThis.prepare_memory_region = function(start_addr, region_size) {
    return globalThis.__prepare_memory_region_native(Number(start_addr), Number(region_size));
};
";

/// What a script that was told to stop fails with.
pub open spec fn cancellation() -> Seq<char> {
    "script execution cancelled by stop"@
}

/// A script goes on unless it was told to stop.
pub open spec fn going_on(stop_requested: bool) -> Result<(), Seq<char>> {
    if stop_requested {
        Err(cancellation())
    } else {
        Ok(())
    }
}

/// Lets a script go on unless it was told to stop.
pub fn ensure_not_cancelled(stop_requested: bool) -> (outcome: Result<(), String>)
    ensures
        outcome_view(outcome) == going_on(stop_requested),
{
    if stop_requested {
        Err("script execution cancelled by stop".to_owned())
    } else {
        Ok(())
    }
}

/// Whether an error says that the script was told to stop.
pub fn is_stop_cancellation_error(error: &str) -> (cancelled: bool)
    ensures
        cancelled == occurs(error@, cancellation()),
{
    contains(error, "script execution cancelled by stop")
}

/// The events that a command of a script brings about once it was answered: the answer to a
/// detaching is reported.
pub open spec fn command_event(command: Seq<char>, response: Seq<char>) -> Option<WorkerEventView> {
    if command == "D"@ {
        Some(WorkerEventView::DebugResponse(Ok(response)))
    } else {
        None
    }
}

/// What to report once a script's command was answered.
pub fn answered_command(command: &str, response: &str) -> (event: Option<WorkerEvent>)
    ensures
        option_view(event) == command_event(command@, response@),
{
    if same(command, "D") {
        Some(WorkerEvent::DebugResponse(Ok(response.to_owned())))
    } else {
        None
    }
}

/// How a script ended: one that was told to stop ended well.
pub open spec fn script_end(name: Seq<char>, evaluated: Result<(), Seq<char>>) -> Result<
    (),
    Seq<char>,
> {
    match evaluated {
        Ok(_) => Ok(()),
        Err(error) => if occurs(error, cancellation()) {
            Ok(())
        } else {
            Err("QuickJS script exception in "@ + name + ": "@ + error)
        },
    }
}

/// How a script ended, from how its evaluation went.
pub fn script_outcome(name: &str, evaluated: Result<(), String>) -> (outcome: Result<(), String>)
    ensures
        outcome_view(outcome) == script_end(name@, outcome_view(evaluated)),
{
    match evaluated {
        Ok(_) => Ok(()),
        Err(error) => if is_stop_cancellation_error(error.as_str()) {
            Ok(())
        } else {
            Err(concat4("QuickJS script exception in ", name, ": ", error.as_str()))
        },
    }
}

/// The error for a prelude that could not be run.
pub open spec fn prelude_failure_text(error: Seq<char>) -> Seq<char> {
    "install JS helper prelude failed: "@ + error
}

/// The error for a prelude that could not be run.
pub fn prelude_failure(error: &str) -> (text: String)
    ensures
        text@ == prelude_failure_text(error@),
{
    concat2("install JS helper prelude failed: ", error)
}

/// What is reported before a script runs.
pub open spec fn opening(name: Seq<char>) -> WorkerEventView {
    WorkerEventView::Log("Running script: "@ + name)
}

/// What to report before a script runs.
pub fn opening_event(name: &str) -> (event: WorkerEvent)
    ensures
        event@ == opening(name@),
{
    WorkerEvent::Log(concat2("Running script: ", name))
}

/// What is reported after a script ran.
pub open spec fn closing(outcome: Result<(), Seq<char>>) -> Seq<WorkerEventView> {
    match outcome {
        Ok(_) => seq![
            WorkerEventView::Log("Script execution completed"@),
            WorkerEventView::ScriptFinished(outcome),
        ],
        Err(_) => seq![WorkerEventView::ScriptFinished(outcome)],
    }
}

/// What to report after a script ran.
pub fn closing_events(outcome: Result<(), String>) -> (events: Vec<WorkerEvent>)
    ensures
        views(events@) == closing(outcome_view(outcome)),
{
    let mut events: Vec<WorkerEvent> = Vec::new();
    if outcome.is_ok() {
        events.push(WorkerEvent::Log("Script execution completed".to_owned()));
    }
    events.push(WorkerEvent::ScriptFinished(outcome));
    assert(views(events@) =~= closing(outcome_view(outcome)));
    events
}

/// A script that is told to stop ends well, whatever text its evaluation puts around the reason.
pub proof fn law_stopped_script_ends_well(name: Seq<char>, before: Seq<char>, after: Seq<char>)
    ensures
        script_end(name, Err(before + cancellation() + after)) == Ok::<(), Seq<char>>(()),
{
    lemma_occurs_between(before, cancellation(), after);
}

} // verus!
