//! The launch lifecycle: create → identify → start → attach, one step per
//! observed outcome.
//!
//! The executable program performs the service calls and hands each
//! digested outcome back as an event; `lifecycle_step` makes every
//! decision. The steps are strictly sequential, a single failure at any
//! step is terminal for the whole launch, and a failed launch requests no
//! further work.

use vstd::prelude::*;
use crate::bridge::OperationOutcome;
use crate::response::{
    decode_diagnostic, extract_runtime_id, json_text_wellformed, pretty_of, runtime_id_of,
};

verus! {

/// A failed operation: the service's result code, and the pretty-printed
/// diagnostic payload when that payload parsed as JSON.
#[derive(Debug)]
pub struct FailureReport {
    pub code: i32,
    pub detail: Option<String>,
}

/// The digested result of the identity query.
#[derive(Debug)]
pub enum IdentityOutcome {
    /// The response carried the runtime identifier.
    Found(String),
    /// The query succeeded but no identifier could be read; fatal, since
    /// no identifier is recoverable.
    MissingIdentifier,
    /// The query itself failed with this result code.
    QueryFailed(i32),
}

/// What the launch can be waiting on, or how it ended.
#[derive(Debug)]
pub enum LaunchPhase {
    /// Waiting for the create outcome.
    Creating,
    /// Waiting for the identity-query outcome.
    Identifying,
    /// Waiting for the start outcome.
    Starting { runtime_id: String },
    /// Waiting for the console channel to attach.
    Attaching { runtime_id: String },
    /// The console relay owns the rest of the process lifetime.
    Running { runtime_id: String },
    /// The launch failed; terminal.
    Failed(LaunchError),
}

/// Why a launch failed.
#[derive(Debug)]
pub enum LaunchError {
    /// The create step's asynchronous outcome reported failure.
    Create(FailureReport),
    /// The identity query failed with this result code.
    Identify(i32),
    /// The identity response carried no readable runtime identifier.
    MissingIdentifier,
    /// The start step's asynchronous outcome reported failure.
    Start(FailureReport),
    /// The console channel could not be attached.
    Console,
}

/// An observed outcome, already digested into plain values.
#[derive(Debug)]
pub enum LaunchEvent {
    /// The create operation's outcome.
    Created(Result<String, FailureReport>),
    /// The identity query's outcome.
    Identified(IdentityOutcome),
    /// The start operation's outcome.
    Started(Result<String, FailureReport>),
    /// Whether the console channel attached.
    ConsoleAttached(bool),
}

/// What the driver is asked to do next.
#[derive(Debug)]
pub enum LaunchAction {
    /// Submit the identity query.
    SubmitIdentityQuery,
    /// Submit the start request.
    SubmitStart,
    /// Open the console channel and hand it to the relay.
    AttachConsole,
    /// Nothing: the launch is over, well or badly.
    NoAction,
}

/// The whole lifecycle policy. Step N+1 is requested only once step N's
/// outcome was observed and successful; any failure moves to the terminal
/// failed phase; a failed or running launch absorbs every further event;
/// an event that does not belong to the current phase changes nothing.
pub open spec fn step_spec(phase: LaunchPhase, event: LaunchEvent) -> (LaunchPhase, LaunchAction) {
    match (phase, event) {
        (LaunchPhase::Creating, LaunchEvent::Created(Ok(_))) => (
            LaunchPhase::Identifying,
            LaunchAction::SubmitIdentityQuery,
        ),
        (LaunchPhase::Creating, LaunchEvent::Created(Err(f))) => (
            LaunchPhase::Failed(LaunchError::Create(f)),
            LaunchAction::NoAction,
        ),
        (LaunchPhase::Identifying, LaunchEvent::Identified(IdentityOutcome::Found(id))) => (
            LaunchPhase::Starting { runtime_id: id },
            LaunchAction::SubmitStart,
        ),
        (
            LaunchPhase::Identifying,
            LaunchEvent::Identified(IdentityOutcome::MissingIdentifier),
        ) => (LaunchPhase::Failed(LaunchError::MissingIdentifier), LaunchAction::NoAction),
        (LaunchPhase::Identifying, LaunchEvent::Identified(IdentityOutcome::QueryFailed(c))) => (
            LaunchPhase::Failed(LaunchError::Identify(c)),
            LaunchAction::NoAction,
        ),
        (LaunchPhase::Starting { runtime_id }, LaunchEvent::Started(Ok(_))) => (
            LaunchPhase::Attaching { runtime_id },
            LaunchAction::AttachConsole,
        ),
        (LaunchPhase::Starting { .. }, LaunchEvent::Started(Err(f))) => (
            LaunchPhase::Failed(LaunchError::Start(f)),
            LaunchAction::NoAction,
        ),
        (LaunchPhase::Attaching { runtime_id }, LaunchEvent::ConsoleAttached(true)) => (
            LaunchPhase::Running { runtime_id },
            LaunchAction::NoAction,
        ),
        (LaunchPhase::Attaching { .. }, LaunchEvent::ConsoleAttached(false)) => (
            LaunchPhase::Failed(LaunchError::Console),
            LaunchAction::NoAction,
        ),
        (p, _) => (p, LaunchAction::NoAction),
    }
}

/// Advances the launch by one observed event.
pub fn lifecycle_step(phase: LaunchPhase, event: LaunchEvent) -> (r: (LaunchPhase, LaunchAction))
    ensures
        r == step_spec(phase, event),
{
    match (phase, event) {
        (LaunchPhase::Creating, LaunchEvent::Created(Ok(_))) => (
            LaunchPhase::Identifying,
            LaunchAction::SubmitIdentityQuery,
        ),
        (LaunchPhase::Creating, LaunchEvent::Created(Err(f))) => (
            LaunchPhase::Failed(LaunchError::Create(f)),
            LaunchAction::NoAction,
        ),
        (LaunchPhase::Identifying, LaunchEvent::Identified(IdentityOutcome::Found(id))) => (
            LaunchPhase::Starting { runtime_id: id },
            LaunchAction::SubmitStart,
        ),
        (
            LaunchPhase::Identifying,
            LaunchEvent::Identified(IdentityOutcome::MissingIdentifier),
        ) => (LaunchPhase::Failed(LaunchError::MissingIdentifier), LaunchAction::NoAction),
        (LaunchPhase::Identifying, LaunchEvent::Identified(IdentityOutcome::QueryFailed(c))) => (
            LaunchPhase::Failed(LaunchError::Identify(c)),
            LaunchAction::NoAction,
        ),
        (LaunchPhase::Starting { runtime_id }, LaunchEvent::Started(Ok(_))) => (
            LaunchPhase::Attaching { runtime_id },
            LaunchAction::AttachConsole,
        ),
        (LaunchPhase::Starting { runtime_id }, LaunchEvent::Started(Err(f))) => (
            LaunchPhase::Failed(LaunchError::Start(f)),
            LaunchAction::NoAction,
        ),
        (LaunchPhase::Attaching { runtime_id }, LaunchEvent::ConsoleAttached(true)) => (
            LaunchPhase::Running { runtime_id },
            LaunchAction::NoAction,
        ),
        (LaunchPhase::Attaching { runtime_id }, LaunchEvent::ConsoleAttached(false)) => (
            LaunchPhase::Failed(LaunchError::Console),
            LaunchAction::NoAction,
        ),
        (p, _) => (p, LaunchAction::NoAction),
    }
}

/// Digests a raw create or start outcome: a failure keeps its result code
/// and gains the pretty-printed diagnostic payload exactly when that
/// payload parses as JSON; a failed decode only omits the detail and
/// never alters the propagated code.
pub fn digest_operation_outcome(outcome: OperationOutcome) -> (r: Result<String, FailureReport>)
    ensures
        outcome matches OperationOutcome::Success(s) ==> r matches Ok(x) && x == s,
        outcome matches OperationOutcome::Failure(code, payload) ==> r matches Err(f) && f.code
            == code && (f.detail is Some <==> json_text_wellformed(payload@)) && (
        f.detail matches Some(p) ==> p@ == pretty_of(payload@)),
{
    match outcome {
        OperationOutcome::Success(s) => Ok(s),
        OperationOutcome::Failure(code, payload) => {
            let detail = decode_diagnostic(payload.as_str());
            Err(FailureReport { code, detail })
        },
    }
}

/// Digests a raw identity-query outcome: a failure keeps only its result
/// code; a success yields the response's `RuntimeId` value exactly when
/// the response carries one, and reports it missing otherwise.
pub fn digest_identity_outcome(outcome: OperationOutcome) -> (r: IdentityOutcome)
    ensures
        outcome matches OperationOutcome::Failure(code, _) ==> r == IdentityOutcome::QueryFailed(
            code,
        ),
        outcome matches OperationOutcome::Success(s) ==> (r is Found <==> runtime_id_of(s@)
            is Some),
        outcome matches OperationOutcome::Success(s) ==> (r matches IdentityOutcome::Found(id)
            ==> (runtime_id_of(s@) matches Some(v) && id@ == v && json_text_wellformed(s@))),
        outcome matches OperationOutcome::Success(s) ==> (!(r is Found) ==> r
            == IdentityOutcome::MissingIdentifier),
{
    match outcome {
        OperationOutcome::Success(s) => match extract_runtime_id(s.as_str()) {
            Some(id) => IdentityOutcome::Found(id),
            None => IdentityOutcome::MissingIdentifier,
        },
        OperationOutcome::Failure(code, _) => IdentityOutcome::QueryFailed(code),
    }
}

/// The phase after a whole run of events.
pub open spec fn run_phase(phase: LaunchPhase, events: Seq<LaunchEvent>) -> LaunchPhase
    decreases events.len(),
{
    if events.len() == 0 {
        phase
    } else {
        run_phase(step_spec(phase, events[0]).0, events.drop_first())
    }
}

/// The actions a whole run of events requests, in order.
pub open spec fn run_actions(phase: LaunchPhase, events: Seq<LaunchEvent>) -> Seq<LaunchAction>
    decreases events.len(),
{
    if events.len() == 0 {
        Seq::empty()
    } else {
        seq![step_spec(phase, events[0]).1] + run_actions(
            step_spec(phase, events[0]).0,
            events.drop_first(),
        )
    }
}

/// A run requests one action per event.
pub proof fn lemma_run_actions_len(phase: LaunchPhase, events: Seq<LaunchEvent>)
    ensures
        run_actions(phase, events).len() == events.len(),
    decreases events.len(),
{
    if events.len() > 0 {
        lemma_run_actions_len(step_spec(phase, events[0]).0, events.drop_first());
    }
}

/// A failed launch is terminal: whatever events still arrive, the phase
/// stays failed with the same error and nothing further is requested.
pub proof fn lemma_failed_is_terminal(e: LaunchError, events: Seq<LaunchEvent>)
    ensures
        run_phase(LaunchPhase::Failed(e), events) == LaunchPhase::Failed(e),
        forall|i: int|
            0 <= i < events.len() ==> #[trigger] run_actions(LaunchPhase::Failed(e), events)[i]
                == LaunchAction::NoAction,
    decreases events.len(),
{
    if events.len() > 0 {
        assert(step_spec(LaunchPhase::Failed(e), events[0]) == (
            LaunchPhase::Failed(e),
            LaunchAction::NoAction,
        ));
        lemma_failed_is_terminal(e, events.drop_first());
        lemma_run_actions_len(LaunchPhase::Failed(e), events.drop_first());
        assert forall|i: int| 0 <= i < events.len() implies #[trigger] run_actions(
            LaunchPhase::Failed(e),
            events,
        )[i] == LaunchAction::NoAction by {
            if i > 0 {
                assert(run_actions(LaunchPhase::Failed(e), events)[i] == run_actions(
                    LaunchPhase::Failed(e),
                    events.drop_first(),
                )[i - 1]);
            }
        }
    }
}

/// A lifecycle whose create outcome reports failure never reaches the
/// identity-query or start steps: the launch ends failed on that report,
/// and no identity query, start or console attachment is ever requested,
/// whatever events follow.
pub proof fn lemma_create_failure_stops_launch(f: FailureReport, rest: Seq<LaunchEvent>)
    ensures
        ({
            let events = seq![LaunchEvent::Created(Err(f))] + rest;
            run_phase(LaunchPhase::Creating, events) == LaunchPhase::Failed(
                LaunchError::Create(f),
            ) && forall|i: int|
                0 <= i < events.len() ==> #[trigger] run_actions(LaunchPhase::Creating, events)[i]
                    == LaunchAction::NoAction
        }),
{
    let events = seq![LaunchEvent::Created(Err(f))] + rest;
    assert(events[0] == LaunchEvent::Created(Err::<String, FailureReport>(f)));
    assert(events.drop_first() =~= rest);
    let e = LaunchError::Create(f);
    assert(step_spec(LaunchPhase::Creating, events[0]) == (
        LaunchPhase::Failed(e),
        LaunchAction::NoAction,
    ));
    lemma_failed_is_terminal(e, rest);
    lemma_run_actions_len(LaunchPhase::Failed(e), rest);
    assert forall|i: int| 0 <= i < 1 + rest.len() implies #[trigger] run_actions(
        LaunchPhase::Creating,
        events,
    )[i] == LaunchAction::NoAction by {
        if i > 0 {
            assert(run_actions(LaunchPhase::Creating, events)[i] == run_actions(
                LaunchPhase::Failed(e),
                rest,
            )[i - 1]);
        }
    }
}

/// When create succeeds and the identity query then fails — with a
/// service failure or a response carrying no readable identifier — the
/// overall launch result is an error, and the start step is never
/// requested, whatever events follow.
pub proof fn lemma_identity_failure_never_starts(
    created: String,
    id_outcome: IdentityOutcome,
    rest: Seq<LaunchEvent>,
)
    requires
        !(id_outcome is Found),
    ensures
        ({
            let events = seq![
                LaunchEvent::Created(Ok(created)),
                LaunchEvent::Identified(id_outcome),
            ] + rest;
            run_phase(LaunchPhase::Creating, events) is Failed && forall|i: int|
                0 <= i < events.len() ==> #[trigger] run_actions(LaunchPhase::Creating, events)[i]
                    != LaunchAction::SubmitStart
        }),
{
    let events = seq![
        LaunchEvent::Created(Ok::<String, FailureReport>(created)),
        LaunchEvent::Identified(id_outcome),
    ] + rest;
    assert(events[0] == LaunchEvent::Created(Ok::<String, FailureReport>(created)));
    let tail1 = events.drop_first();
    assert(tail1 =~= seq![LaunchEvent::Identified(id_outcome)] + rest);
    assert(tail1[0] == LaunchEvent::Identified(id_outcome));
    assert(tail1.drop_first() =~= rest);
    let e = match id_outcome {
        IdentityOutcome::QueryFailed(c) => LaunchError::Identify(c),
        _ => LaunchError::MissingIdentifier,
    };
    assert(step_spec(LaunchPhase::Identifying, tail1[0]) == (
        LaunchPhase::Failed(e),
        LaunchAction::NoAction,
    ));
    lemma_failed_is_terminal(e, rest);
    lemma_run_actions_len(LaunchPhase::Failed(e), rest);
    lemma_run_actions_len(LaunchPhase::Creating, events);
    lemma_run_actions_len(LaunchPhase::Identifying, tail1);
    assert(run_phase(LaunchPhase::Creating, events) == run_phase(LaunchPhase::Identifying, tail1));
    assert(run_phase(LaunchPhase::Identifying, tail1) == run_phase(LaunchPhase::Failed(e), rest));
    assert forall|i: int| 0 <= i < 2 + rest.len() implies #[trigger] run_actions(
        LaunchPhase::Creating,
        events,
    )[i] != LaunchAction::SubmitStart by {
        assert(run_actions(LaunchPhase::Creating, events)[0]
            == LaunchAction::SubmitIdentityQuery);
        if i > 0 {
            assert(run_actions(LaunchPhase::Creating, events)[i] == run_actions(
                LaunchPhase::Identifying,
                tail1,
            )[i - 1]);
            assert(run_actions(LaunchPhase::Identifying, tail1)[0] == LaunchAction::NoAction);
            if i > 1 {
                assert(run_actions(LaunchPhase::Identifying, tail1)[i - 1] == run_actions(
                    LaunchPhase::Failed(e),
                    rest,
                )[i - 2]);
            }
        }
    }
}

} // verus!
