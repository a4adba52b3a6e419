use vstd::prelude::*;

verus! {

/// A value that can be consumed by its own terminal action.
///
/// `finalize` takes the value by move, so ownership rules out a second run on
/// the same value. An implementation says when the action may run
/// (`finalize_pre`) and what is known once it has returned (`finalize_post`);
/// unless it says otherwise, the action may run on every value and nothing is
/// claimed of its effect.
pub trait Finalize {
    /// Holds of the values on which `finalize` may be called.
    open spec fn finalize_pre(&self) -> bool {
        true
    }

    /// Holds of a value once `finalize` has run on it and returned.
    open spec fn finalize_post(&self) -> bool {
        true
    }

    /// Consumes the value and performs its terminal action.
    fn finalize(self)
        requires
            self.finalize_pre(),
        ensures
            self.finalize_post(),
    ;
}

/// Every callable without arguments is its own terminal action: finalizing it
/// calls it.
impl<T: FnOnce()> Finalize for T {
    open spec fn finalize_pre(&self) -> bool {
        call_requires(*self, ())
    }

    open spec fn finalize_post(&self) -> bool {
        call_ensures(*self, (), ())
    }

    fn finalize(self) {
        self()
    }
}

} // verus!
