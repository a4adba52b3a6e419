use crate::finalize::Finalize;
use crate::finalizer::AutoFinalizer;
use crate::terminator::ScopedTerminator;
use crate::terminator::Terminator;
use vstd::prelude::*;

verus! {

/// A callable without arguments finalizes by being called: it may be
/// finalized where it may be called, and having been finalized means that the
/// call has returned.
pub proof fn law_callable_finalizes_by_call<C: FnOnce()>(callable: C)
    ensures
        callable.finalize_pre() <==> call_requires(callable, ()),
        callable.finalize_post() <==> call_ensures(callable, (), ()),
{
}

/// A callable that takes a payload terminates by being called on it.
pub proof fn law_callable_terminates_by_call<T, F: FnOnce(T)>(callable: F, payload: T)
    ensures
        callable.terminate_pre(payload) <==> call_requires(callable, (payload,)),
        callable.terminate_post(payload) <==> call_ensures(callable, (payload,), ()),
{
}

/// Finalizing a guard around a callable calls it: `finalize_now` asks of the
/// guard that construction built what the call asks, and once it has
/// returned, the call has returned.
pub proof fn law_finalizing_calls_callable<C: FnOnce()>(callable: C)
    ensures
        AutoFinalizer::new(callable)@.finalize_pre() <==> call_requires(callable, ()),
        AutoFinalizer::new(callable)@.finalize_post() <==> call_ensures(callable, (), ()),
{
    AutoFinalizer::new(callable).law_guard_is_its_payload(callable);
}

/// Terminating a guard that pairs a payload with a callable calls the
/// callable on that payload, and on nothing else.
pub proof fn law_terminating_calls_callable_on_payload<T, F: FnOnce(T)>(payload: T, callable: F)
    ensures
        ScopedTerminator::new(payload, callable)@ == (payload, callable),
        ScopedTerminator::new(payload, callable)@.1.terminate_pre(
            ScopedTerminator::new(payload, callable)@.0,
        ) <==> call_requires(callable, (payload,)),
        ScopedTerminator::new(payload, callable)@.1.terminate_post(
            ScopedTerminator::new(payload, callable)@.0,
        ) <==> call_ensures(callable, (payload,), ()),
{
    ScopedTerminator::new(payload, callable).law_guard_is_its_contents(payload, callable);
}

} // verus!
