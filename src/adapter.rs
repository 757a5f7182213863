//! Decisions of the synchronous service adapter.
//!
//! Every service operation is submitted with a callback that fills a result
//! slot; the caller then advances the service's event loop one non-blocking
//! iteration at a time and asks the functions here, after each iteration,
//! whether to keep polling or what the operation came to.
use vstd::prelude::*;

verus! {

/// The outcome of one non-blocking iteration of the service's event loop.
#[derive(Debug, Clone, Copy, PartialEq, Eq, Structural)]
pub enum IterateOutcome {
    /// Progress was made, with the number of dispatched sources.
    Success(u32),
    /// The loop was asked to quit, with the quit value.
    Quit(i32),
    /// The loop failed, with the error code.
    Failure(i32),
}

/// The state of a submitted operation.
#[derive(Debug, Clone, Copy, PartialEq, Eq, Structural)]
pub enum OperationState {
    Running,
    Done,
    Cancelled,
}

/// The state of the connection to the service.
#[derive(Debug, Clone, Copy, PartialEq, Eq, Structural)]
pub enum ContextState {
    Unconnected,
    Connecting,
    Authorizing,
    SettingName,
    Ready,
    Failed,
    Terminated,
}

/// Why an adapter operation failed.
#[derive(Debug, Clone, Copy, PartialEq, Eq, Structural)]
pub enum AdapterError {
    /// The event loop failed or was asked to quit.
    IterateError(IterateOutcome),
    /// The connection became failed or terminated.
    ContextError(ContextState),
    /// The operation was cancelled.
    OperationError(OperationState),
    /// Setting up the connection failed, with the service's error code.
    ConnectError(i32),
    /// The operation finished without the result it must deliver.
    Misc(MiscReason),
}

/// The internal contract that an operation broke.
#[derive(Debug, Clone, Copy, PartialEq, Eq, Structural)]
pub enum MiscReason {
    /// The result slot was empty when the operation was done.
    MissingResult,
    /// The device looked up by name was not reported.
    DeviceNotFound,
}

/// What to do after one iteration of the event loop.
#[derive(Debug, Clone, Copy, PartialEq, Eq, Structural)]
pub enum Poll {
    /// Iterate again.
    Continue,
    /// Stop: the operation or handshake completed.
    Complete,
    /// Stop: the wait failed with this error.
    Abort(AdapterError),
}

/// The error an iteration outcome aborts with, if any.
pub open spec fn iterate_failure(it: IterateOutcome) -> Option<AdapterError> {
    match it {
        IterateOutcome::Success(_) => None,
        _ => Some(AdapterError::IterateError(it)),
    }
}

/// The decision of an operation wait after one iteration.
pub open spec fn wait_decision(it: IterateOutcome, op: OperationState) -> Poll {
    match iterate_failure(it) {
        Some(e) => Poll::Abort(e),
        None => match op {
            OperationState::Done => Poll::Complete,
            OperationState::Cancelled => Poll::Abort(AdapterError::OperationError(OperationState::Cancelled),
            ),
            OperationState::Running => Poll::Continue,
        },
    }
}

/// The decision of the connection handshake after one iteration.
pub open spec fn handshake_decision(it: IterateOutcome, ctx: ContextState) -> Poll {
    match iterate_failure(it) {
        Some(e) => Poll::Abort(e),
        None => match ctx {
            ContextState::Ready => Poll::Complete,
            ContextState::Failed => Poll::Abort(AdapterError::ContextError(ctx)),
            ContextState::Terminated => Poll::Abort(AdapterError::ContextError(ctx)),
            _ => Poll::Continue,
        },
    }
}

/// After one iteration while waiting for an operation: an iteration error or
/// quit aborts, a done operation succeeds, a cancelled one fails, and a
/// running one keeps the wait going.
pub fn wait_step(it: IterateOutcome, op: OperationState) -> (r: Poll)
    ensures
        r == wait_decision(it, op),
{
    match it {
        IterateOutcome::Success(_) => match op {
            OperationState::Done => Poll::Complete,
            OperationState::Cancelled => Poll::Abort(AdapterError::OperationError(OperationState::Cancelled),
            ),
            OperationState::Running => Poll::Continue,
        },
        _ => Poll::Abort(AdapterError::IterateError(it)),
    }
}

/// After one iteration of the connection handshake: an iteration error or
/// quit aborts, a ready connection succeeds, a failed or terminated one
/// fails, and any other state keeps the handshake going.
pub fn handshake_step(it: IterateOutcome, ctx: ContextState) -> (r: Poll)
    ensures
        r == handshake_decision(it, ctx),
{
    match it {
        IterateOutcome::Success(_) => match ctx {
            ContextState::Ready => Poll::Complete,
            ContextState::Failed => Poll::Abort(AdapterError::ContextError(ctx)),
            ContextState::Terminated => Poll::Abort(AdapterError::ContextError(ctx)),
            _ => Poll::Continue,
        },
        _ => Poll::Abort(AdapterError::IterateError(it)),
    }
}

/// The result of an operation once the wait is over: a failed wait passes its
/// error on, a successful one hands out the slot's value, and an empty slot
/// is a broken contract.
pub fn take_result<T>(waited: Result<(), AdapterError>, slot: Option<T>) -> (r: Result<
    T,
    AdapterError,
>)
    ensures
        waited is Err ==> r == Err::<T, AdapterError>(waited->Err_0),
        waited is Ok && slot is Some ==> r == Ok::<T, AdapterError>(slot->Some_0),
        waited is Ok && slot is None ==> r == Err::<T, AdapterError>(
            AdapterError::Misc(MiscReason::MissingResult),
        ),
{
    match waited {
        Err(e) => Err(e),
        Ok(()) => match slot {
            Some(v) => Ok(v),
            None => Err(AdapterError::Misc(MiscReason::MissingResult)),
        },
    }
}

/// The device a lookup by name came to: a failed wait passes its error on, and
/// a lookup that reported no device fails.
pub fn take_device<T>(waited: Result<(), AdapterError>, found: Option<T>) -> (r: Result<
    T,
    AdapterError,
>)
    ensures
        waited is Err ==> r == Err::<T, AdapterError>(waited->Err_0),
        waited is Ok && found is Some ==> r == Ok::<T, AdapterError>(found->Some_0),
        waited is Ok && found is None ==> r == Err::<T, AdapterError>(
            AdapterError::Misc(MiscReason::DeviceNotFound),
        ),
{
    match waited {
        Err(e) => Err(e),
        Ok(()) => match found {
            Some(v) => Ok(v),
            None => Err(AdapterError::Misc(MiscReason::DeviceNotFound)),
        },
    }
}

/// A stream as the service lists it: its own index and the index of the
/// device it is attached to.
#[derive(Debug, Clone, Copy, PartialEq, Eq, Structural)]
pub struct StreamRecord {
    pub index: u32,
    pub device: u32,
}

/// The indices of the streams attached to `device`, in listing order.
pub open spec fn attached_to(streams: Seq<StreamRecord>, device: u32) -> Seq<u32>
    decreases streams.len(),
{
    if streams.len() == 0 {
        Seq::empty()
    } else {
        let rest = attached_to(streams.drop_last(), device);
        let last = streams.last();
        if last.device == device {
            rest.push(last.index)
        } else {
            rest
        }
    }
}

/// The indices of the listed streams that are attached to `device`, in the
/// order the service listed them.
pub fn streams_on(streams: &Vec<StreamRecord>, device: u32) -> (r: Vec<u32>)
    ensures
        r@ == attached_to(streams@, device),
{
    let mut r: Vec<u32> = Vec::new();
    let mut i: usize = 0;
    while i < streams.len()
        invariant
            i <= streams@.len(),
            r@ == attached_to(streams@.take(i as int), device),
        decreases streams@.len() - i,
    {
        let s = streams[i];
        assert(streams@.take(i as int + 1).drop_last() =~= streams@.take(i as int));
        if s.device == device {
            r.push(s.index);
        }
        i = i + 1;
    }
    assert(streams@.take(i as int) =~= streams@);
    r
}

} // verus!
