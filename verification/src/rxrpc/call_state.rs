//! RxRPC call completion: a call reaches its terminal state once, with the
//! completion kind, abort code and error recorded.
use vstd::prelude::*;

verus! {

pub const RX_CALL_DEAD: u32 = 0xffff_ffff;
pub const RXRPC_CALL_EXPOSED: u32 = 8;
pub const RXRPC_CALL_RELEASED: u32 = 1;

/// How a call completed.
#[derive(Clone, Copy, Debug, PartialEq, Eq, Structural)]
pub enum RxrpcCallCompletion {
    Succeeded,
    RemotelyAborted,
    LocallyAborted,
    LocalError,
    NetworkError,
}

/// The call states.
#[derive(Clone, Copy, Debug, PartialEq, Eq, Structural)]
pub enum RxrpcCallState {
    Uninitialised,
    ClientAwaitConn,
    ClientSendRequest,
    ClientAwaitReply,
    ClientRecvReply,
    ServerPrealloc,
    ServerRecvRequest,
    ServerAckRequest,
    ServerSendReply,
    ServerAwaitAck,
    Complete,
}

/// Why a call was aborted.
#[derive(Clone, Copy, Debug, PartialEq, Eq, Structural)]
pub enum RxrpcAbortReason {
    LocalAbort,
    UserAbort,
    Error,
}

/// A call: state, completion details, flags and the counts of wakeups,
/// socket notifications, abort packets and trace points it caused.
#[derive(Clone, Copy, Debug, PartialEq, Eq)]
pub struct RxrpcCall {
    pub state: RxrpcCallState,
    pub abort_code: u32,
    pub error: i32,
    pub completion: RxrpcCallCompletion,
    pub flags: u32,
    pub wakeups: u32,
    pub socket_notifications: u32,
    pub abort_packets_sent: u32,
    pub complete_traces: u32,
    pub abort_traces: u32,
}

impl RxrpcCall {
    /// A fresh call in `state`, with no flags, counts or completion details.
    pub fn new(state: RxrpcCallState) -> (r: Self)
        ensures
            r == (RxrpcCall {
                state,
                abort_code: 0,
                error: 0,
                completion: RxrpcCallCompletion::Succeeded,
                flags: 0,
                wakeups: 0,
                socket_notifications: 0,
                abort_packets_sent: 0,
                complete_traces: 0,
                abort_traces: 0,
            }),
    {
        RxrpcCall {
            state,
            abort_code: 0,
            error: 0,
            completion: RxrpcCallCompletion::Succeeded,
            flags: 0,
            wakeups: 0,
            socket_notifications: 0,
            abort_packets_sent: 0,
            complete_traces: 0,
            abort_traces: 0,
        }
    }

    /// Whether the call has been exposed to the user.
    pub fn is_exposed(&self) -> (r: bool)
        ensures
            r == (self.flags & RXRPC_CALL_EXPOSED != 0),
    {
        self.flags & RXRPC_CALL_EXPOSED != 0
    }

    /// Marks the call exposed.
    pub fn expose(&mut self)
        ensures
            *final(self) == (RxrpcCall { flags: old(self).flags | RXRPC_CALL_EXPOSED, ..*old(self) }),
    {
        self.flags = self.flags | RXRPC_CALL_EXPOSED;
    }
}

/// Completing a call: a call already complete is left alone (false);
/// otherwise the details are recorded, the state becomes COMPLETE and the
/// completion is traced, wakes waiters and notifies the socket (true).
pub open spec fn set_call_completion(call: RxrpcCall, compl: RxrpcCallCompletion, abort_code: u32, error: i32) -> (RxrpcCall, bool) {
    if call.state == RxrpcCallState::Complete {
        (call, false)
    } else {
        (RxrpcCall {
            abort_code,
            error,
            completion: compl,
            state: RxrpcCallState::Complete,
            complete_traces: call.complete_traces.saturating_add(1),
            wakeups: call.wakeups.saturating_add(1),
            socket_notifications: call.socket_notifications.saturating_add(1),
            ..call
        }, true)
    }
}

/// Completes `call`; see `set_call_completion`.
pub fn rxrpc_set_call_completion(call: &mut RxrpcCall, compl: RxrpcCallCompletion, abort_code: u32, error: i32) -> (r: bool)
    ensures
        (*final(call), r) == set_call_completion(*old(call), compl, abort_code, error),
{
    if call.state == RxrpcCallState::Complete {
        return false;
    }
    call.abort_code = abort_code;
    call.error = error;
    call.completion = compl;
    call.state = RxrpcCallState::Complete;
    call.complete_traces = call.complete_traces.saturating_add(1);
    call.wakeups = call.wakeups.saturating_add(1);
    call.socket_notifications = call.socket_notifications.saturating_add(1);
    true
}

/// Completes `call` successfully (no abort code, no error).
pub fn rxrpc_call_completed(call: &mut RxrpcCall) -> (r: bool)
    ensures
        (*final(call), r) == set_call_completion(*old(call), RxrpcCallCompletion::Succeeded, 0, 0),
{
    rxrpc_set_call_completion(call, RxrpcCallCompletion::Succeeded, 0, 0)
}

/// Aborts `call` locally: the abort is traced; if the call was not yet
/// complete it completes as locally aborted, and an exposed call also sends
/// an abort packet. Returns whether the call was completed here.
pub fn rxrpc_abort_call(call: &mut RxrpcCall, seq: u32, abort_code: u32, error: i32, why: RxrpcAbortReason) -> (r: bool)
    ensures
        ({
            let traced = RxrpcCall { abort_traces: old(call).abort_traces.saturating_add(1), ..*old(call) };
            let (done, completed) = set_call_completion(traced, RxrpcCallCompletion::LocallyAborted, abort_code, error);
            &&& r == completed
            &&& *final(call) == if completed && done.flags & RXRPC_CALL_EXPOSED != 0 {
                RxrpcCall { abort_packets_sent: done.abort_packets_sent.saturating_add(1), ..done }
            } else {
                done
            }
        }),
{
    call.abort_traces = call.abort_traces.saturating_add(1);
    if !rxrpc_set_call_completion(call, RxrpcCallCompletion::LocallyAborted, abort_code, error) {
        return false;
    }
    if call.is_exposed() {
        call.abort_packets_sent = call.abort_packets_sent.saturating_add(1);
    }
    true
}

/// Fails a call that never started: it completes as `compl` with the dead
/// abort code and `error`, and is marked released. Returns whether it was
/// already released.
pub fn rxrpc_prefail_call(call: &mut RxrpcCall, compl: RxrpcCallCompletion, error: i32) -> (r: bool)
    ensures
        r == (old(call).flags & RXRPC_CALL_RELEASED != 0),
        *final(call) == (RxrpcCall {
            abort_code: RX_CALL_DEAD,
            error,
            completion: compl,
            state: RxrpcCallState::Complete,
            complete_traces: old(call).complete_traces.saturating_add(1),
            flags: old(call).flags | RXRPC_CALL_RELEASED,
            ..*old(call)
        }),
{
    call.abort_code = RX_CALL_DEAD;
    call.error = error;
    call.completion = compl;
    call.state = RxrpcCallState::Complete;
    call.complete_traces = call.complete_traces.saturating_add(1);
    let was_released = call.flags & RXRPC_CALL_RELEASED != 0;
    call.flags = call.flags | RXRPC_CALL_RELEASED;
    was_released
}

/// A call completes at most once: once a completion succeeded, every later
/// one reports false and leaves the call (and its recorded details) alone.
pub proof fn lemma_completion_is_final(
    call: RxrpcCall,
    compl: RxrpcCallCompletion,
    abort_code: u32,
    error: i32,
    compl2: RxrpcCallCompletion,
    abort_code2: u32,
    error2: i32,
)
    requires
        set_call_completion(call, compl, abort_code, error).1,
    ensures
        ({
            let done = set_call_completion(call, compl, abort_code, error).0;
            set_call_completion(done, compl2, abort_code2, error2) == (done, false)
        }),
{
}

} // verus!
