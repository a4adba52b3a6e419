//! Guards that end in exactly one terminal action.
//!
//! An [`AutoFinalizer`] owns a payload that knows how to finalize itself; a
//! [`ScopedTerminator`] pairs any payload with a terminator that consumes it.
//! A guard holds its contents for as long as it exists, and it ends by being
//! given away whole, in one of two ways: extraction hands the contents back
//! and runs nothing, finalization runs the terminal action on them. Both take
//! the guard by value, so a guard ends once.
//!
//! The terminal action may ask something of its payload, and a destructor has
//! no way to ask it of the scope that it closes. The guards therefore have no
//! destructor of their own: a type that runs the action at the end of a scope
//! holds a guard and hands it to [`AutoFinalizer::finalize_now`] or
//! [`ScopedTerminator::terminate_now`] from its destructor.
mod finalize;
mod finalizer;
pub mod laws;
mod terminator;

pub use crate::finalize::Finalize;
pub use crate::finalizer::AutoFinalizer;
pub use crate::terminator::ScopedTerminator;
pub use crate::terminator::Terminator;
