//! Moves the inner value out of an `Option` or a `Result` that the caller
//! has shown to hold one.
//!
//! The presence of the value is a precondition checked by the verifier at
//! every call site, so the absent branch is unreachable in verified code.
//! Should unverified code break the precondition, the call halts with a
//! panic: the check is kept rather than traded for undefined behaviour.
use vstd::prelude::*;

verus! {

/// A container whose inner value can be moved out once the caller has
/// established that it is there.
pub trait UnsafeUnwrap<T> {
    /// Whether the container holds its inner value.
    spec fn holds_value(&self) -> bool;

    /// The inner value; meaningful only where `holds_value` holds.
    spec fn held_value(&self) -> T;

    /// Moves the inner value out of `self`, consuming it.
    fn unsafe_unwrap(self) -> (r: T)
        requires
            self.holds_value(),
        ensures
            r == self.held_value(),
    ;
}

impl<T> UnsafeUnwrap<T> for Option<T> {
    open spec fn holds_value(&self) -> bool {
        self is Some
    }

    open spec fn held_value(&self) -> T {
        self->Some_0
    }

    fn unsafe_unwrap(self) -> (r: T)
        ensures
            self == Some(r),
    {
        match self {
            Some(x) => x,
            None => unreached(),
        }
    }
}

impl<T, E> UnsafeUnwrap<T> for Result<T, E> {
    open spec fn holds_value(&self) -> bool {
        self is Ok
    }

    open spec fn held_value(&self) -> T {
        self->Ok_0
    }

    fn unsafe_unwrap(self) -> (r: T)
        ensures
            self == Ok::<T, E>(r),
    {
        match self {
            Ok(x) => x,
            Err(_) => unreached(),
        }
    }
}

/// Any value wrapped in `Some` may be unwrapped, and unwrapping gives that
/// value back.
pub proof fn present_option_unwraps_to_value<T>(v: T)
    ensures
        call_requires(<Option<T> as UnsafeUnwrap<T>>::unsafe_unwrap, (Some(v),)),
        forall|r: T|
            call_ensures(<Option<T> as UnsafeUnwrap<T>>::unsafe_unwrap, (Some(v),), r) ==> r == v,
{
}

/// Any value wrapped in `Ok` may be unwrapped, whatever the error type, and
/// unwrapping gives that value back.
pub proof fn success_result_unwraps_to_value<T, E>(v: T)
    ensures
        call_requires(<Result<T, E> as UnsafeUnwrap<T>>::unsafe_unwrap, (Ok::<T, E>(v),)),
        forall|r: T|
            call_ensures(<Result<T, E> as UnsafeUnwrap<T>>::unsafe_unwrap, (Ok::<T, E>(v),), r)
                ==> r == v,
{
}

/// `None` does not hold a value, so it never meets the precondition of
/// unwrapping: no verified caller can unwrap it.
pub proof fn absent_option_is_refused<T>()
    ensures
        !<Option<T> as UnsafeUnwrap<T>>::holds_value(&None::<T>),
{
}

/// An `Err` does not hold a value, so it never meets the precondition of
/// unwrapping: no verified caller can unwrap it.
pub proof fn failure_result_is_refused<T, E>(e: E)
    ensures
        !<Result<T, E> as UnsafeUnwrap<T>>::holds_value(&Err::<T, E>(e)),
{
}

} // verus!
