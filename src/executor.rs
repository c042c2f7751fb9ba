use vstd::prelude::*;

verus! {

/// Where a query invocation stands.
#[derive(Clone, Copy, Debug, PartialEq, Eq, Structural)]
pub enum Phase {
    Idle,
    Connecting,
    Bound,
    Executing,
    BuildingResult,
    Done,
    Failed,
}

/// What happened since the last step of an invocation.
#[derive(Clone, Copy, Debug, PartialEq, Eq, Structural)]
pub enum Event {
    /// The call was made.
    Invoked,
    /// The connection is open and the parameters are prepared.
    Connected,
    /// The connection could not be opened.
    ConnectFailed,
    /// The statement was sent.
    Issued,
    /// The rows came back.
    RowsReturned,
    /// The statement failed.
    ExecuteFailed,
    /// The result was assembled.
    ResultBuilt,
}

/// The phase that `event` leads to from `phase`, or `None` where the event
/// cannot happen in that phase. Failure is reachable only while connecting
/// or executing, and nothing leaves `Done` or `Failed`: there is no retry.
pub open spec fn transition(phase: Phase, event: Event) -> Option<Phase> {
    match (phase, event) {
        (Phase::Idle, Event::Invoked) => Some(Phase::Connecting),
        (Phase::Connecting, Event::Connected) => Some(Phase::Bound),
        (Phase::Connecting, Event::ConnectFailed) => Some(Phase::Failed),
        (Phase::Bound, Event::Issued) => Some(Phase::Executing),
        (Phase::Executing, Event::RowsReturned) => Some(Phase::BuildingResult),
        (Phase::Executing, Event::ExecuteFailed) => Some(Phase::Failed),
        (Phase::BuildingResult, Event::ResultBuilt) => Some(Phase::Done),
        _ => None,
    }
}

/// Takes one step of an invocation.
pub fn advance(phase: Phase, event: Event) -> (r: Option<Phase>)
    ensures
        r == transition(phase, event),
{
    match (phase, event) {
        (Phase::Idle, Event::Invoked) => Some(Phase::Connecting),
        (Phase::Connecting, Event::Connected) => Some(Phase::Bound),
        (Phase::Connecting, Event::ConnectFailed) => Some(Phase::Failed),
        (Phase::Bound, Event::Issued) => Some(Phase::Executing),
        (Phase::Executing, Event::RowsReturned) => Some(Phase::BuildingResult),
        (Phase::Executing, Event::ExecuteFailed) => Some(Phase::Failed),
        (Phase::BuildingResult, Event::ResultBuilt) => Some(Phase::Done),
        _ => None,
    }
}

/// Whether an invocation in `phase` has ended.
pub fn is_finished(phase: Phase) -> (r: bool)
    ensures
        r == (phase == Phase::Done || phase == Phase::Failed),
{
    phase == Phase::Done || phase == Phase::Failed
}

/// An invocation fails only from the connecting or the executing phase, and
/// a finished one takes no further step.
pub proof fn lemma_failure_and_end(phase: Phase, event: Event)
    ensures
        transition(phase, event) == Some(Phase::Failed) ==> (phase == Phase::Connecting
            || phase == Phase::Executing),
        (phase == Phase::Done || phase == Phase::Failed) ==> transition(phase, event) is None,
{
}

} // verus!
