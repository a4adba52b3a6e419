use crate::finalize::Finalize;
use crate::finalizer::AutoFinalizer;
use core::ops::Deref;
use core::ops::DerefMut;
use vstd::prelude::*;

verus! {

/// A terminal action for payloads of type `T`.
///
/// `terminate` consumes the terminator together with the payload it acts on.
/// An implementation says on which payloads the action may run
/// (`terminate_pre`) and what is known once it has returned
/// (`terminate_post`); unless it says otherwise, the action may run on every
/// payload and nothing is claimed of its effect.
pub trait Terminator<T> {
    /// Holds where `terminate` may be called on `payload`.
    open spec fn terminate_pre(&self, payload: T) -> bool {
        true
    }

    /// Holds once `terminate` has run on `payload` and returned.
    open spec fn terminate_post(&self, payload: T) -> bool {
        true
    }

    /// Consumes the terminator and `other`, and performs the terminal action
    /// on `other`.
    fn terminate(self, other: T)
        requires
            self.terminate_pre(other),
        ensures
            self.terminate_post(other),
    ;
}

/// Every callable that takes a `T` is a terminator for `T`: terminating calls
/// it on the payload.
impl<T, F: FnOnce(T)> Terminator<T> for F {
    open spec fn terminate_pre(&self, payload: T) -> bool {
        call_requires(*self, (payload,))
    }

    open spec fn terminate_post(&self, payload: T) -> bool {
        call_ensures(*self, (payload,), ())
    }

    fn terminate(self, other: T) {
        self(other)
    }
}

/// A payload together with the terminator that will consume it. Finalizing
/// the pair hands the payload to the terminator.
#[derive(Debug)]
pub struct TermPair<T, F>(T, F);

impl<T, F> TermPair<T, F> {
    pub closed spec fn payload(self) -> T {
        self.0
    }

    pub closed spec fn terminator(self) -> F {
        self.1
    }
}

impl<T: Clone, F: Clone> Clone for TermPair<T, F> {
    fn clone(&self) -> (copy: Self)
        ensures
            cloned(self.payload(), copy.payload()),
            cloned(self.terminator(), copy.terminator()),
    {
        TermPair(self.0.clone(), self.1.clone())
    }
}

impl<T, F: Terminator<T>> Finalize for TermPair<T, F> {
    open spec fn finalize_pre(&self) -> bool {
        self.terminator().terminate_pre(self.payload())
    }

    open spec fn finalize_post(&self) -> bool {
        self.terminator().terminate_post(self.payload())
    }

    fn finalize(self) {
        self.1.terminate(self.0)
    }
}

/// A guard that pairs a payload with the terminator to run on it.
///
/// Access through the guard reaches the payload only; the terminator rides
/// along untouched until the guard is taken apart by
/// [`ScopedTerminator::into_pair`] or ended by
/// [`ScopedTerminator::terminate_now`].
#[derive(Debug)]
pub struct ScopedTerminator<T, F: Terminator<T>> {
    inner: AutoFinalizer<TermPair<T, F>>,
}

impl<T, F: Terminator<T>> View for ScopedTerminator<T, F> {
    type V = (T, F);

    /// The payload and the terminator.
    closed spec fn view(&self) -> (T, F) {
        (self.inner@.payload(), self.inner@.terminator())
    }
}

impl<T, F: Terminator<T>> ScopedTerminator<T, F> {
    /// The guard that holds `value` and `terminator`.
    pub closed spec fn holding(value: T, terminator: F) -> Self {
        ScopedTerminator { inner: AutoFinalizer::holding(TermPair(value, terminator)) }
    }

    /// Pairs `value` with `terminator` in a guard. Nothing of either is run or
    /// changed.
    #[verifier::allow_in_spec]
    pub fn new(value: T, terminator: F) -> (guard: Self)
        ensures
            guard@ == (value, terminator),
        returns
            Self::holding(value, terminator),
    {
        Self { inner: AutoFinalizer::new(TermPair(value, terminator)) }
    }

    /// Consumes the guard and returns payload and terminator as they are. The
    /// terminator does not run.
    #[verifier::allow_in_spec]
    pub fn into_pair(item: Self) -> (pair: (T, F))
        returns
            item@,
    {
        let pair = AutoFinalizer::into_inner(item.inner);
        (pair.0, pair.1)
    }

    /// Consumes the guard and hands the payload that it holds to its
    /// terminator: the work of a destructor for the guard.
    pub fn terminate_now(item: Self)
        requires
            item@.1.terminate_pre(item@.0),
        ensures
            item@.1.terminate_post(item@.0),
    {
        AutoFinalizer::finalize_now(item.inner)
    }

    /// A guard is what it holds: the guard that construction builds around a
    /// payload and a terminator holds the two, and two guards with the same
    /// contents are one guard.
    pub proof fn law_guard_is_its_contents(self, value: T, terminator: F)
        ensures
            Self::new(value, terminator)@ == (value, terminator),
            Self::new(self@.0, self@.1) == self,
    {
        AutoFinalizer::<TermPair<T, F>>::law_guard_is_its_payload(
            self.inner,
            TermPair(value, terminator),
        );
    }

    /// Pairing a payload with a terminator and taking the guard apart again
    /// gives both back as they were.
    pub proof fn law_extraction_returns_pair(value: T, terminator: F)
        ensures
            Self::into_pair(Self::new(value, terminator)) == (value, terminator),
    {
        Self::new(value, terminator).law_guard_is_its_contents(value, terminator);
    }

    /// What is written through `deref_mut` is what `deref` reads and what
    /// `into_pair` returns afterwards, beside the terminator that the guard
    /// had all along, and it is what `terminate_now` hands to that terminator.
    /// Here `after` is the guard as `deref_mut` leaves `before` once `written`
    /// stands behind the reference.
    pub proof fn law_access_reflects_mutation(before: Self, after: Self, written: T)
        requires
            after@ == (written, before@.1),
        ensures
            after == Self::new(written, before@.1),
            Self::into_pair(after) == (written, before@.1),
            after@.1.terminate_pre(after@.0) <==> before@.1.terminate_pre(written),
            after@.1.terminate_post(after@.0) <==> before@.1.terminate_post(written),
    {
        after.law_guard_is_its_contents(written, before@.1);
    }
}

impl<T, F: Terminator<T>> Deref for ScopedTerminator<T, F> {
    type Target = T;

    /// Shared access to the payload.
    fn deref(&self) -> (payload: &T)
        ensures
            *payload == self@.0,
    {
        &self.inner.deref().0
    }
}

impl<T, F: Terminator<T>> DerefMut for ScopedTerminator<T, F> {
    /// Exclusive access to the payload. The guard keeps its terminator; the
    /// payload becomes whatever the caller writes.
    fn deref_mut(&mut self) -> (payload: &mut T)
        ensures
            *payload == old(self)@.0,
            final(self)@ == (*final(payload), old(self)@.1),
    {
        &mut self.inner.deref_mut().0
    }
}

impl<T: Clone, F: Terminator<T> + Clone> Clone for ScopedTerminator<T, F> {
    /// A guard of its own around clones of payload and terminator.
    fn clone(&self) -> (copy: Self)
        ensures
            cloned(self@.0, copy@.0),
            cloned(self@.1, copy@.1),
    {
        Self { inner: self.inner.clone() }
    }
}

impl<T: Default, F: Terminator<T> + Default> Default for ScopedTerminator<T, F> {
    /// A guard around the default payload and the default terminator.
    fn default() -> (guard: Self)
        ensures
            call_ensures(T::default, (), guard@.0),
            call_ensures(F::default, (), guard@.1),
    {
        Self::new(T::default(), F::default())
    }
}

} // verus!
