//! The collection runner: starting, following, finishing and cancelling a
//! run, and the progress line shown while it runs.

use vstd::prelude::*;
use crate::effects::Effect;
use crate::state::{
    CollectionRunPhase, CollectionRunProgressEvent, CollectionRunReport, CollectionRunnerState,
    Midway, RunCollectionInput,
};
use crate::text::{decimal, decimal_string, owned, push_str};

verus! {

#[derive(Debug)]
pub enum RunnerMessage {
    StartRequested(RunCollectionInput),
    ProgressReceived(CollectionRunProgressEvent),
    Finished(Result<CollectionRunReport, String>),
    CancelRequested,
}

/// The runner: a start is ignored while a run is in progress, otherwise it
/// opens a fresh runner and asks for the run; progress is kept; the end of
/// a run closes it with its report or error; a cancel is sent at most once
/// per run.
pub open spec fn runner_spec(pre: Midway, post: Midway, msg: RunnerMessage, eff: Effect) -> bool {
    match msg {
        RunnerMessage::StartRequested(input) => if pre.runner matches Some(r) && r.running {
            post == pre && eff is Nothing
        } else {
            &&& post == Midway {
                runner: Some(
                    CollectionRunnerState {
                        running: true,
                        cancel_available: true,
                        latest_progress: None,
                        report: None,
                        error: None,
                    },
                ),
                ..pre
            }
            &&& eff == Effect::StartCollectionRun(input)
        },
        RunnerMessage::ProgressReceived(event) => eff is Nothing && match pre.runner {
            Some(r) => post == Midway {
                runner: Some(CollectionRunnerState { latest_progress: Some(event), ..r }),
                ..pre
            },
            None => post == pre,
        },
        RunnerMessage::Finished(result) => eff is Nothing && match pre.runner {
            Some(r) => post == Midway {
                runner: Some(
                    match result {
                        Ok(report) => CollectionRunnerState {
                            running: false,
                            cancel_available: false,
                            report: Some(report),
                            error: None,
                            ..r
                        },
                        Err(m) => CollectionRunnerState {
                            running: false,
                            cancel_available: false,
                            error: Some(m),
                            ..r
                        },
                    },
                ),
                ..pre
            },
            None => post == pre,
        },
        RunnerMessage::CancelRequested => match pre.runner {
            Some(r) if r.cancel_available => eff is CancelCollectionRun && post == Midway {
                runner: Some(CollectionRunnerState { cancel_available: false, ..r }),
                ..pre
            },
            _ => eff is Nothing && post == pre,
        },
    }
}

pub fn update_runner(state: &mut Midway, message: RunnerMessage) -> (eff: Effect)
    ensures
        runner_spec(*old(state), *final(state), message, eff),
{
    match message {
        RunnerMessage::StartRequested(input) => {
            let busy = match &state.runner {
                Some(runner) => runner.running,
                None => false,
            };
            if busy {
                return Effect::Nothing;
            }
            state.runner = Some(
                CollectionRunnerState {
                    running: true,
                    cancel_available: true,
                    latest_progress: None,
                    report: None,
                    error: None,
                },
            );
            Effect::StartCollectionRun(input)
        },
        RunnerMessage::ProgressReceived(event) => {
            if let Some(runner) = state.runner.as_mut() {
                runner.latest_progress = Some(event);
            }
            Effect::Nothing
        },
        RunnerMessage::Finished(result) => {
            if let Some(runner) = state.runner.as_mut() {
                runner.running = false;
                runner.cancel_available = false;
                match result {
                    Ok(report) => {
                        runner.report = Some(report);
                        runner.error = None;
                    },
                    Err(message) => {
                        runner.error = Some(message);
                    },
                }
            }
            Effect::Nothing
        },
        RunnerMessage::CancelRequested => {
            if let Some(runner) = state.runner.as_mut() {
                if runner.cancel_available {
                    runner.cancel_available = false;
                    return Effect::CancelCollectionRun;
                }
            }
            Effect::Nothing
        },
    }
}

/// "p de t": how many requests were processed out of how many.
pub open spec fn position_text(e: CollectionRunProgressEvent) -> Seq<char> {
    decimal(e.processed_requests as nat) + " de "@ + decimal(e.total_requests as nat)
}

/// The progress line of a run, in Spanish: the start with the number of
/// requests, each request starting or finishing (named when it has a name)
/// with its position, and the end with its counters.
pub open spec fn progress_label_spec(e: CollectionRunProgressEvent) -> Seq<char> {
    match e.phase {
        CollectionRunPhase::Started => "Ejecución iniciada: "@ + decimal(e.total_requests as nat)
            + " request(s) por ejecutar."@,
        CollectionRunPhase::RequestStarted => match e.request_name {
            Some(name) => "Ejecutando \""@ + name@ + "\" ("@ + position_text(e) + ")."@,
            None => "Ejecutando request ("@ + position_text(e) + ")."@,
        },
        CollectionRunPhase::RequestFinished => match e.request_name {
            Some(name) => "Terminó \""@ + name@ + "\" ("@ + position_text(e) + ")."@,
            None => "Terminó un request ("@ + position_text(e) + ")."@,
        },
        CollectionRunPhase::Finished => "Ejecución finalizada: "@ + decimal(
            e.completed_requests as nat,
        ) + " completado(s), "@ + decimal(e.errored_requests as nat) + " con error, "@ + decimal(
            e.passed_assertions as nat,
        ) + " assertion(s) que pasaron y "@ + decimal(e.failed_assertions as nat)
            + " que fallaron."@,
    }
}

fn position(e: &CollectionRunProgressEvent) -> (r: String)
    ensures
        r@ == position_text(*e),
{
    let mut s = decimal_string(e.processed_requests);
    push_str(&mut s, " de ");
    push_str(&mut s, decimal_string(e.total_requests).as_str());
    s
}

pub fn run_progress_label(progress: &CollectionRunProgressEvent) -> (r: String)
    ensures
        r@ == progress_label_spec(*progress),
{
    match progress.phase {
        CollectionRunPhase::Started => {
            let mut s = owned("Ejecución iniciada: ");
            push_str(&mut s, decimal_string(progress.total_requests).as_str());
            push_str(&mut s, " request(s) por ejecutar.");
            s
        },
        CollectionRunPhase::RequestStarted => match &progress.request_name {
            Some(name) => {
                let mut s = owned("Ejecutando \"");
                push_str(&mut s, name.as_str());
                push_str(&mut s, "\" (");
                push_str(&mut s, position(progress).as_str());
                push_str(&mut s, ").");
                s
            },
            None => {
                let mut s = owned("Ejecutando request (");
                push_str(&mut s, position(progress).as_str());
                push_str(&mut s, ").");
                s
            },
        },
        CollectionRunPhase::RequestFinished => match &progress.request_name {
            Some(name) => {
                let mut s = owned("Terminó \"");
                push_str(&mut s, name.as_str());
                push_str(&mut s, "\" (");
                push_str(&mut s, position(progress).as_str());
                push_str(&mut s, ").");
                s
            },
            None => {
                let mut s = owned("Terminó un request (");
                push_str(&mut s, position(progress).as_str());
                push_str(&mut s, ").");
                s
            },
        },
        CollectionRunPhase::Finished => {
            let mut s = owned("Ejecución finalizada: ");
            push_str(&mut s, decimal_string(progress.completed_requests).as_str());
            push_str(&mut s, " completado(s), ");
            push_str(&mut s, decimal_string(progress.errored_requests).as_str());
            push_str(&mut s, " con error, ");
            push_str(&mut s, decimal_string(progress.passed_assertions).as_str());
            push_str(&mut s, " assertion(s) que pasaron y ");
            push_str(&mut s, decimal_string(progress.failed_assertions).as_str());
            push_str(&mut s, " que fallaron.");
            s
        },
    }
}

} // verus!
