//! The consumer-side method-call protocol as a state machine. A call on the copy path first
//! obtains the in-args buffer and writes the arguments into it (only when the arguments take
//! any bytes); both paths then obtain the return-value buffer (only when the method returns a
//! value), perform the call (queue position 0), and read the returned value back. The
//! transport that performs each action answers with an event.
use vstd::prelude::*;

verus! {

/// Why a method call, or setting one up, failed.
#[derive(Debug, Clone, Copy, PartialEq, Eq)]
pub enum MethodFailedReason {
    InArgsBufferUnavailable,
    ReturnValueBufferUnavailable,
    CallFailed,
    MethodCallerCreationFailed,
    MethodHandlerCreationFailed,
}

/// What the caller asks the transport to do next.
#[derive(Debug, Clone, Copy, PartialEq, Eq)]
pub enum CallAction {
    GetInArgsBuffer,
    WriteArgs,
    GetReturnBuffer,
    DoCall,
    ReadReturnValue,
    Finish(Result<(), MethodFailedReason>),
}

/// The transport's answer to the last action.
#[derive(Debug, Clone, Copy, PartialEq, Eq)]
pub enum CallEvent {
    /// The in-args buffer's length, or `None` when it is unavailable.
    InArgsBuffer(Option<usize>),
    ArgsWritten,
    /// Whether the return-value buffer is available.
    ReturnBuffer(bool),
    /// Whether the call succeeded.
    CallCompleted(bool),
    ReturnValueRead,
}

/// Where a call stands.
#[derive(Debug, Clone, Copy, PartialEq, Eq)]
pub enum CallPhase {
    AwaitingInArgsBuffer,
    WritingArgs,
    AwaitingReturnBuffer,
    Calling,
    ReadingReturn,
    Done,
}

/// One method call in flight.
pub struct MethodCall {
    pub args_size: usize,
    pub is_void: bool,
    pub phase: CallPhase,
}

/// The phase and action that start the call-and-read-return part of a call.
pub open spec fn do_call_start(is_void: bool) -> (CallPhase, CallAction) {
    if is_void {
        (CallPhase::Calling, CallAction::DoCall)
    } else {
        (CallPhase::AwaitingReturnBuffer, CallAction::GetReturnBuffer)
    }
}

/// The event that a phase waits for has the right kind.
pub open spec fn accepts(phase: CallPhase, ev: CallEvent) -> bool {
    match phase {
        CallPhase::AwaitingInArgsBuffer => ev is InArgsBuffer,
        CallPhase::WritingArgs => ev is ArgsWritten,
        CallPhase::AwaitingReturnBuffer => ev is ReturnBuffer,
        CallPhase::Calling => ev is CallCompleted,
        CallPhase::ReadingReturn => ev is ReturnValueRead,
        CallPhase::Done => false,
    }
}

/// The protocol's transition table.
pub open spec fn transition(args_size: usize, is_void: bool, phase: CallPhase, ev: CallEvent) -> (CallPhase, CallAction) {
    match (phase, ev) {
        (CallPhase::AwaitingInArgsBuffer, CallEvent::InArgsBuffer(None)) => (
            CallPhase::Done,
            CallAction::Finish(Err(MethodFailedReason::InArgsBufferUnavailable)),
        ),
        (CallPhase::AwaitingInArgsBuffer, CallEvent::InArgsBuffer(Some(_))) => (CallPhase::WritingArgs, CallAction::WriteArgs),
        (CallPhase::WritingArgs, CallEvent::ArgsWritten) => do_call_start(is_void),
        (CallPhase::AwaitingReturnBuffer, CallEvent::ReturnBuffer(false)) => (
            CallPhase::Done,
            CallAction::Finish(Err(MethodFailedReason::ReturnValueBufferUnavailable)),
        ),
        (CallPhase::AwaitingReturnBuffer, CallEvent::ReturnBuffer(true)) => (CallPhase::Calling, CallAction::DoCall),
        (CallPhase::Calling, CallEvent::CallCompleted(false)) => (
            CallPhase::Done,
            CallAction::Finish(Err(MethodFailedReason::CallFailed)),
        ),
        (CallPhase::Calling, CallEvent::CallCompleted(true)) => if is_void {
            (CallPhase::Done, CallAction::Finish(Ok(())))
        } else {
            (CallPhase::ReadingReturn, CallAction::ReadReturnValue)
        },
        (CallPhase::ReadingReturn, CallEvent::ReturnValueRead) => (CallPhase::Done, CallAction::Finish(Ok(()))),
        _ => (phase, CallAction::Finish(Err(MethodFailedReason::CallFailed))),
    }
}

impl MethodCall {
    /// Starts a copy-path call whose arguments take `args_size` bytes.
    pub fn start_copy(args_size: usize, is_void: bool) -> (r: (MethodCall, CallAction))
        ensures
            r.0.args_size == args_size,
            r.0.is_void == is_void,
            args_size > 0 ==> r.0.phase == CallPhase::AwaitingInArgsBuffer && r.1 == CallAction::GetInArgsBuffer,
            args_size == 0 ==> (r.0.phase, r.1) == do_call_start(is_void),
    {
        if args_size > 0 {
            (MethodCall { args_size, is_void, phase: CallPhase::AwaitingInArgsBuffer }, CallAction::GetInArgsBuffer)
        } else {
            let (phase, action) = Self::do_call_start_exec(is_void);
            (MethodCall { args_size, is_void, phase }, action)
        }
    }

    /// Starts a zero-copy call: the arguments already sit in the in-args buffer.
    pub fn start_zero_copy(is_void: bool) -> (r: (MethodCall, CallAction))
        ensures
            r.0.args_size == 0,
            r.0.is_void == is_void,
            (r.0.phase, r.1) == do_call_start(is_void),
    {
        let (phase, action) = Self::do_call_start_exec(is_void);
        (MethodCall { args_size: 0, is_void, phase }, action)
    }

    fn do_call_start_exec(is_void: bool) -> (r: (CallPhase, CallAction))
        ensures
            r == do_call_start(is_void),
    {
        if is_void {
            (CallPhase::Calling, CallAction::DoCall)
        } else {
            (CallPhase::AwaitingReturnBuffer, CallAction::GetReturnBuffer)
        }
    }

    /// Advances the call on the transport's answer to the last action. An in-args buffer
    /// shorter than the arguments is not accepted.
    pub fn on_event(&mut self, ev: CallEvent) -> (action: CallAction)
        requires
            accepts(old(self).phase, ev),
            ev matches CallEvent::InArgsBuffer(Some(len)) ==> len >= old(self).args_size,
        ensures
            final(self).args_size == old(self).args_size,
            final(self).is_void == old(self).is_void,
            (final(self).phase, action) == transition(old(self).args_size, old(self).is_void, old(self).phase, ev),
    {
        let (phase, action) = match (self.phase, ev) {
            (CallPhase::AwaitingInArgsBuffer, CallEvent::InArgsBuffer(None)) => (
                CallPhase::Done,
                CallAction::Finish(Err(MethodFailedReason::InArgsBufferUnavailable)),
            ),
            (CallPhase::AwaitingInArgsBuffer, CallEvent::InArgsBuffer(Some(_))) => (CallPhase::WritingArgs, CallAction::WriteArgs),
            (CallPhase::WritingArgs, CallEvent::ArgsWritten) => Self::do_call_start_exec(self.is_void),
            (CallPhase::AwaitingReturnBuffer, CallEvent::ReturnBuffer(false)) => (
                CallPhase::Done,
                CallAction::Finish(Err(MethodFailedReason::ReturnValueBufferUnavailable)),
            ),
            (CallPhase::AwaitingReturnBuffer, CallEvent::ReturnBuffer(true)) => (CallPhase::Calling, CallAction::DoCall),
            (CallPhase::Calling, CallEvent::CallCompleted(false)) => (
                CallPhase::Done,
                CallAction::Finish(Err(MethodFailedReason::CallFailed)),
            ),
            (CallPhase::Calling, CallEvent::CallCompleted(true)) => if self.is_void {
                (CallPhase::Done, CallAction::Finish(Ok(())))
            } else {
                (CallPhase::ReadingReturn, CallAction::ReadReturnValue)
            },
            (CallPhase::ReadingReturn, CallEvent::ReturnValueRead) => (CallPhase::Done, CallAction::Finish(Ok(()))),
            _ => (self.phase, CallAction::Finish(Err(MethodFailedReason::CallFailed))),
        };
        self.phase = phase;
        action
    }
}


/// How the transport answers: whether the in-args buffer is available (and how long it is),
/// whether the return-value buffer is available, and whether the call succeeds.
#[derive(Debug, Clone, Copy, PartialEq, Eq)]
pub struct CallEnv {
    pub in_args: Option<usize>,
    pub return_buffer: bool,
    pub call_ok: bool,
}

/// The transport's answer to an action.
pub open spec fn answer(env: CallEnv, action: CallAction) -> CallEvent {
    match action {
        CallAction::GetInArgsBuffer => CallEvent::InArgsBuffer(env.in_args),
        CallAction::WriteArgs => CallEvent::ArgsWritten,
        CallAction::GetReturnBuffer => CallEvent::ReturnBuffer(env.return_buffer),
        CallAction::DoCall => CallEvent::CallCompleted(env.call_ok),
        _ => CallEvent::ReturnValueRead,
    }
}

/// The actions a call issues from `phase` on, starting with `action`, up to `fuel` steps.
pub open spec fn trace(args_size: usize, is_void: bool, phase: CallPhase, action: CallAction, env: CallEnv, fuel: nat) -> Seq<CallAction>
    decreases fuel,
{
    if fuel == 0 || action is Finish {
        seq![action]
    } else {
        let (p2, a2) = transition(args_size, is_void, phase, answer(env, action));
        seq![action] + trace(args_size, is_void, p2, a2, env, (fuel - 1) as nat)
    }
}

/// The phase and first action of a copy-path call.
pub open spec fn copy_start(args_size: usize, is_void: bool) -> (CallPhase, CallAction) {
    if args_size > 0 {
        (CallPhase::AwaitingInArgsBuffer, CallAction::GetInArgsBuffer)
    } else {
        do_call_start(is_void)
    }
}

/// Every action a copy-path call issues against `env`, in order.
pub open spec fn copy_call_trace(args_size: usize, is_void: bool, env: CallEnv) -> Seq<CallAction> {
    trace(args_size, is_void, copy_start(args_size, is_void).0, copy_start(args_size, is_void).1, env, 6)
}

/// Every action a zero-copy call issues against `env`, in order.
pub open spec fn zero_copy_call_trace(is_void: bool, env: CallEnv) -> Seq<CallAction> {
    trace(0, is_void, do_call_start(is_void).0, do_call_start(is_void).1, env, 6)
}

/// How a call against `env` ends: the first unavailable buffer, else the call's own result.
pub open spec fn expected_outcome(args_size: usize, is_void: bool, env: CallEnv) -> Result<(), MethodFailedReason> {
    if args_size > 0 && env.in_args is None {
        Err(MethodFailedReason::InArgsBufferUnavailable)
    } else if !is_void && !env.return_buffer {
        Err(MethodFailedReason::ReturnValueBufferUnavailable)
    } else if !env.call_ok {
        Err(MethodFailedReason::CallFailed)
    } else {
        Ok(())
    }
}

/// The call protocol on the copy path: a call ends with exactly one `Finish`, carrying the
/// first unavailable buffer or else the call's own result; the in-args buffer is asked for
/// exactly when the arguments take bytes, and the arguments are written exactly when it was
/// obtained; the return-value buffer is asked for exactly when the method returns a value and
/// the arguments are in place; the call is made exactly when every buffer it needs was
/// obtained, after the arguments were written and the return-value buffer obtained; and the
/// return value is read exactly when a value-returning call succeeded.
pub proof fn lemma_copy_call_protocol(args_size: usize, is_void: bool, env: CallEnv)
    requires
        env.in_args matches Some(len) ==> len >= args_size,
    ensures
        ({
            let t = copy_call_trace(args_size, is_void, env);
            let args_ready = args_size == 0 || env.in_args is Some;
            let called = args_ready && (is_void || env.return_buffer);
            &&& t.last() == CallAction::Finish(expected_outcome(args_size, is_void, env))
            &&& forall|i: int| 0 <= i < t.len() - 1 ==> !(#[trigger] t[i] is Finish)
            &&& t.contains(CallAction::GetInArgsBuffer) <==> args_size > 0
            &&& t.contains(CallAction::WriteArgs) <==> (args_size > 0 && env.in_args is Some)
            &&& t.contains(CallAction::GetReturnBuffer) <==> (!is_void && args_ready)
            &&& t.contains(CallAction::DoCall) <==> called
            &&& t.contains(CallAction::ReadReturnValue) <==> (called && !is_void && env.call_ok)
            &&& forall|i: int, j: int|
                0 <= i < t.len() && 0 <= j < t.len() && #[trigger] t[j] == CallAction::DoCall && (#[trigger] t[i]
                    == CallAction::WriteArgs || t[i] == CallAction::GetReturnBuffer) ==> i < j
        }),
{
    reveal_with_fuel(trace, 7);
    let t = copy_call_trace(args_size, is_void, env);
    if args_size > 0 {
        if env.in_args is None {
            assert(t =~= seq![CallAction::GetInArgsBuffer, CallAction::Finish(Err(MethodFailedReason::InArgsBufferUnavailable))]);
        } else if is_void {
            if env.call_ok {
                assert(t =~= seq![CallAction::GetInArgsBuffer, CallAction::WriteArgs, CallAction::DoCall, CallAction::Finish(Ok(()))]);
            } else {
                assert(t =~= seq![CallAction::GetInArgsBuffer, CallAction::WriteArgs, CallAction::DoCall, CallAction::Finish(Err(MethodFailedReason::CallFailed))]);
            }
        } else if !env.return_buffer {
            assert(t =~= seq![CallAction::GetInArgsBuffer, CallAction::WriteArgs, CallAction::GetReturnBuffer, CallAction::Finish(Err(MethodFailedReason::ReturnValueBufferUnavailable))]);
        } else if env.call_ok {
            assert(t =~= seq![CallAction::GetInArgsBuffer, CallAction::WriteArgs, CallAction::GetReturnBuffer, CallAction::DoCall, CallAction::ReadReturnValue, CallAction::Finish(Ok(()))]);
        } else {
            assert(t =~= seq![CallAction::GetInArgsBuffer, CallAction::WriteArgs, CallAction::GetReturnBuffer, CallAction::DoCall, CallAction::Finish(Err(MethodFailedReason::CallFailed))]);
        }
    } else {
        lemma_do_call_protocol(is_void, env);
        assert(t == zero_copy_call_trace(is_void, env));
    }
}

/// The call protocol on the zero-copy path, where the arguments are already in place: the
/// return-value buffer is asked for exactly when the method returns a value; the call is made
/// exactly when that buffer, if needed, was obtained, and after it; the return value is read
/// exactly when a value-returning call succeeded; and the call ends with exactly one `Finish`
/// carrying the outcome.
pub proof fn lemma_do_call_protocol(is_void: bool, env: CallEnv)
    ensures
        ({
            let t = zero_copy_call_trace(is_void, env);
            let called = is_void || env.return_buffer;
            &&& t.last() == CallAction::Finish(expected_outcome(0, is_void, env))
            &&& forall|i: int| 0 <= i < t.len() - 1 ==> !(#[trigger] t[i] is Finish)
            &&& !t.contains(CallAction::GetInArgsBuffer)
            &&& !t.contains(CallAction::WriteArgs)
            &&& t.contains(CallAction::GetReturnBuffer) <==> !is_void
            &&& t.contains(CallAction::DoCall) <==> called
            &&& t.contains(CallAction::ReadReturnValue) <==> (called && !is_void && env.call_ok)
            &&& forall|i: int, j: int|
                0 <= i < t.len() && 0 <= j < t.len() && #[trigger] t[j] == CallAction::DoCall && (#[trigger] t[i]
                    == CallAction::WriteArgs || t[i] == CallAction::GetReturnBuffer) ==> i < j
        }),
{
    reveal_with_fuel(trace, 7);
    let t = zero_copy_call_trace(is_void, env);
    if is_void {
        if env.call_ok {
            assert(t =~= seq![CallAction::DoCall, CallAction::Finish(Ok(()))]);
        } else {
            assert(t =~= seq![CallAction::DoCall, CallAction::Finish(Err(MethodFailedReason::CallFailed))]);
        }
    } else if !env.return_buffer {
        assert(t =~= seq![CallAction::GetReturnBuffer, CallAction::Finish(Err(MethodFailedReason::ReturnValueBufferUnavailable))]);
    } else if env.call_ok {
        assert(t =~= seq![CallAction::GetReturnBuffer, CallAction::DoCall, CallAction::ReadReturnValue, CallAction::Finish(Ok(()))]);
    } else {
        assert(t =~= seq![CallAction::GetReturnBuffer, CallAction::DoCall, CallAction::Finish(Err(MethodFailedReason::CallFailed))]);
    }
}

} // verus!
