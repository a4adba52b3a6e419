use crate::finalize::Finalize;
use core::ops::Deref;
use core::ops::DerefMut;
use vstd::prelude::*;

verus! {

/// A guard around a payload that finalizes itself.
///
/// The guard holds its payload for as long as it exists. It ends either by
/// [`AutoFinalizer::into_inner`], which hands the payload back and runs
/// nothing, or by [`AutoFinalizer::finalize_now`], which finalizes the
/// payload. Comparing, ordering and hashing two guards goes by their payloads.
#[derive(Debug, PartialEq, Eq, PartialOrd, Ord, Hash)]
pub struct AutoFinalizer<T: Finalize> {
    inner: T,
}

impl<T: Finalize> View for AutoFinalizer<T> {
    type V = T;

    /// The payload.
    closed spec fn view(&self) -> T {
        self.inner
    }
}

impl<T: Finalize> AutoFinalizer<T> {
    /// The guard that holds `value`.
    pub closed spec fn holding(value: T) -> Self {
        AutoFinalizer { inner: value }
    }

    /// Wraps `value` in a guard. Nothing of `value` is run or changed.
    #[verifier::allow_in_spec]
    pub fn new(value: T) -> (guard: Self)
        ensures
            guard@ == value,
        returns
            Self::holding(value),
    {
        Self { inner: value }
    }

    /// Consumes the guard and returns the payload as it is. The terminal
    /// action does not run.
    #[verifier::allow_in_spec]
    pub fn into_inner(item: Self) -> (value: T)
        returns
            item@,
    {
        item.inner
    }

    /// Consumes the guard and finalizes the payload that it holds: the work of
    /// a destructor for the guard.
    pub fn finalize_now(item: Self)
        requires
            item@.finalize_pre(),
        ensures
            item@.finalize_post(),
    {
        item.inner.finalize()
    }

    /// A guard is what it holds: the guard that construction builds around a
    /// value holds that value, and two guards with one payload are one guard.
    pub proof fn law_guard_is_its_payload(self, value: T)
        ensures
            Self::new(value)@ == value,
            Self::new(self@) == self,
    {
    }

    /// Wrapping a value and extracting it again gives the value back.
    pub proof fn law_extraction_returns_wrapped(value: T)
        ensures
            Self::into_inner(Self::new(value)) == value,
    {
    }

    /// What is written through `deref_mut` is what `deref` reads, what
    /// `into_inner` returns and what `finalize_now` finalizes afterwards.
    /// Here `after` is the guard as `deref_mut` leaves it once `written`
    /// stands behind the reference.
    pub proof fn law_access_reflects_mutation(after: Self, written: T)
        requires
            after@ == written,
        ensures
            after == Self::new(written),
            Self::into_inner(after) == written,
            after@.finalize_pre() <==> written.finalize_pre(),
            after@.finalize_post() <==> written.finalize_post(),
    {
    }
}

impl<T: Finalize> Deref for AutoFinalizer<T> {
    type Target = T;

    /// Shared access to the payload.
    fn deref(&self) -> (payload: &T)
        ensures
            *payload == self@,
    {
        &self.inner
    }
}

impl<T: Finalize> DerefMut for AutoFinalizer<T> {
    /// Exclusive access to the payload. Whatever the caller writes through the
    /// reference is what the guard holds afterwards.
    fn deref_mut(&mut self) -> (payload: &mut T)
        ensures
            *payload == old(self)@,
            final(self)@ == *final(payload),
    {
        &mut self.inner
    }
}

impl<T: Finalize + Clone> Clone for AutoFinalizer<T> {
    /// A guard of its own around a clone of the payload.
    fn clone(&self) -> (copy: Self)
        ensures
            cloned(self@, copy@),
    {
        Self { inner: self.inner.clone() }
    }
}

impl<T: Finalize + Default> Default for AutoFinalizer<T> {
    /// A guard around the payload type's default value.
    fn default() -> (guard: Self)
        ensures
            call_ensures(T::default, (), guard@),
    {
        Self::new(T::default())
    }
}

} // verus!
