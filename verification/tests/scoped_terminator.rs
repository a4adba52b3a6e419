use finalizer::{ScopedTerminator, Terminator};
use std::cell::Cell;
use std::ops::{Deref, DerefMut};

/// A terminator of its own type, which records the payload it was given.
struct Recorder<'a> {
    seen: &'a Cell<u32>,
    calls: &'a Cell<u32>,
}

impl<'a> Terminator<u32> for Recorder<'a> {
    fn terminate(self, other: u32) {
        self.seen.set(other);
        self.calls.set(self.calls.get() + 1);
    }
}

/// A terminator that can be made from nothing.
#[derive(Debug, Default, Clone, PartialEq)]
struct Sink {
    tag: u8,
}

impl Terminator<u32> for Sink {
    fn terminate(self, _other: u32) {}
}

impl Terminator<Vec<u8>> for Sink {
    fn terminate(self, _other: Vec<u8>) {}
}

/// Terminates the guard that it holds when it goes out of scope.
struct AtScopeEnd<T, F: Terminator<T>>(Option<ScopedTerminator<T, F>>);

impl<T, F: Terminator<T>> Drop for AtScopeEnd<T, F> {
    fn drop(&mut self) {
        if let Some(guard) = self.0.take() {
            ScopedTerminator::terminate_now(guard);
        }
    }
}

#[test]
fn terminator_receives_payload_42_exactly_once() {
    let seen = Cell::new(0u32);
    let calls = Cell::new(0u32);
    {
        let _scope = AtScopeEnd(Some(ScopedTerminator::new(42u32, |value: u32| {
            seen.set(value);
            calls.set(calls.get() + 1);
        })));
        assert_eq!(calls.get(), 0);
    }
    assert_eq!(seen.get(), 42);
    assert_eq!(calls.get(), 1);
}

#[test]
fn terminate_now_hands_the_payload_to_the_terminator_once() {
    let seen = Cell::new(0u32);
    let calls = Cell::new(0u32);
    let guard = ScopedTerminator::new(42u32, |value: u32| {
        seen.set(value);
        calls.set(calls.get() + 1);
    });
    assert_eq!(calls.get(), 0);
    ScopedTerminator::terminate_now(guard);
    assert_eq!(seen.get(), 42);
    assert_eq!(calls.get(), 1);
}

#[test]
fn terminating_with_a_callable_calls_it_on_the_payload() {
    let seen = Cell::new(0u32);
    let callable = |value: u32| seen.set(value + 1);
    callable.terminate(6);
    assert_eq!(seen.get(), 7);
}

#[test]
fn custom_terminator_type_receives_payload() {
    let seen = Cell::new(0u32);
    let calls = Cell::new(0u32);
    let guard = ScopedTerminator::new(9u32, Recorder { seen: &seen, calls: &calls });
    ScopedTerminator::terminate_now(guard);
    assert_eq!(seen.get(), 9);
    assert_eq!(calls.get(), 1);
}

#[test]
fn into_pair_returns_both_and_runs_nothing() {
    let seen = Cell::new(0u32);
    let calls = Cell::new(0u32);
    {
        let guard = ScopedTerminator::new(17u32, Recorder { seen: &seen, calls: &calls });
        let (value, _terminator) = ScopedTerminator::into_pair(guard);
        assert_eq!(value, 17);
        assert_eq!(calls.get(), 0);
    }
    assert_eq!(calls.get(), 0);
    assert_eq!(seen.get(), 0);
}

#[test]
fn taking_the_guard_apart_leaves_nothing_for_the_destructor() {
    let seen = Cell::new(0u32);
    let calls = Cell::new(0u32);
    {
        let mut scope =
            AtScopeEnd(Some(ScopedTerminator::new(17u32, Recorder { seen: &seen, calls: &calls })));
        let guard = scope.0.take().unwrap();
        let (value, _terminator) = ScopedTerminator::into_pair(guard);
        assert_eq!(value, 17);
    }
    assert_eq!(calls.get(), 0);
    assert_eq!(seen.get(), 0);
}

#[test]
fn returned_terminator_still_works_on_the_returned_payload() {
    let seen = Cell::new(0u32);
    let calls = Cell::new(0u32);
    let guard = ScopedTerminator::new(23u32, |value: u32| {
        seen.set(value);
        calls.set(calls.get() + 1);
    });
    let (value, terminator) = ScopedTerminator::into_pair(guard);
    assert_eq!(value, 23);
    assert_eq!(calls.get(), 0);
    terminator(value);
    assert_eq!(seen.get(), 23);
    assert_eq!(calls.get(), 1);
}

#[test]
fn returned_pair_is_what_was_given() {
    let guard = ScopedTerminator::new(5u32, Sink { tag: 3 });
    assert_eq!(ScopedTerminator::into_pair(guard), (5u32, Sink { tag: 3 }));
}

#[test]
fn access_reaches_the_payload_only() {
    let mut guard = ScopedTerminator::new(vec![1u8, 2], Sink { tag: 1 });
    assert_eq!(guard.len(), 2);
    guard.push(3);
    assert_eq!(*guard, vec![1u8, 2, 3]);
    guard.deref_mut().push(4);
    assert_eq!(guard.deref().len(), 4);
    let (payload, terminator) = ScopedTerminator::into_pair(guard);
    assert_eq!(payload, vec![1u8, 2, 3, 4]);
    assert_eq!(terminator, Sink { tag: 1 });
}

#[test]
fn terminator_receives_the_mutated_payload() {
    let seen = Cell::new(0u32);
    let calls = Cell::new(0u32);
    let mut guard = ScopedTerminator::new(1u32, Recorder { seen: &seen, calls: &calls });
    *guard = 30;
    *guard += 1;
    assert_eq!(*guard, 31);
    assert_eq!(calls.get(), 0);
    ScopedTerminator::terminate_now(guard);
    assert_eq!(seen.get(), 31);
    assert_eq!(calls.get(), 1);
}

#[test]
fn one_payload_type_takes_different_terminators() {
    let pool_a = Cell::new(0u32);
    let pool_b = Cell::new(0u32);
    let first = ScopedTerminator::new(2u32, |value: u32| pool_a.set(pool_a.get() + value));
    let second = ScopedTerminator::new(3u32, |value: u32| pool_b.set(pool_b.get() + 10 * value));
    ScopedTerminator::terminate_now(first);
    ScopedTerminator::terminate_now(second);
    assert_eq!(pool_a.get(), 2);
    assert_eq!(pool_b.get(), 30);
}

#[test]
fn scoped_clone_is_a_guard_of_its_own() {
    let total = Cell::new(0u32);
    let calls = Cell::new(0u32);
    let first = ScopedTerminator::new(4u32, |value: u32| {
        total.set(total.get() + value);
        calls.set(calls.get() + 1);
    });
    let mut second = first.clone();
    *second = 100;
    assert_eq!(*first, 4);
    assert_eq!(calls.get(), 0);
    ScopedTerminator::terminate_now(first);
    ScopedTerminator::terminate_now(second);
    assert_eq!(calls.get(), 2);
    assert_eq!(total.get(), 104);
}

#[test]
fn scoped_default_holds_default_payload_and_terminator() {
    let guard: ScopedTerminator<u32, Sink> = ScopedTerminator::default();
    assert_eq!(*guard, 0);
    assert_eq!(ScopedTerminator::into_pair(guard), (0u32, Sink::default()));
}

#[test]
fn scoped_debug_output_shows_the_payload() {
    let guard = ScopedTerminator::new(77u32, Sink { tag: 2 });
    let text = format!("{:?}", guard);
    assert!(text.contains("ScopedTerminator"));
    assert!(text.contains("77"));
}
