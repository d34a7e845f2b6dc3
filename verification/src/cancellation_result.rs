//! The result of a single iteration of the service loop.

use vstd::prelude::*;
use vstd::std_specs::convert::FromSpecImpl;

verus! {

/// Result of a single iteration of the service loop.
#[derive(Debug, Clone, PartialEq, Eq, PartialOrd, Ord)]
pub enum CancellationResult<T> {
    /// Indicates that the loop should continue and wraps the value yielded
    /// by the finished iteration.
    Item(T),
    /// Indicates that the loop should continue.
    Continue,
    /// Indicates that the loop should end.
    Break,
}

impl<T> CancellationResult<T> {
    /// Constructs a new `CancellationResult::Item` from anything that
    /// converts into the yielded type. The item holds what `into` makes of
    /// `t`, whatever the conversion.
    pub fn item(t: impl Into<T>) -> (result: Self)
        ensures
            result is Item,
            call_ensures(Into::into, (t,), result->Item_0),
    {
        Self::Item(t.into())
    }
}

impl<T> From<T> for CancellationResult<T> {
    fn from(value: T) -> (result: Self) {
        Self::Item(value)
    }
}

impl<T> FromSpecImpl<T> for CancellationResult<T> {
    open spec fn obeys_from_spec() -> bool {
        true
    }

    open spec fn from_spec(value: T) -> Self {
        CancellationResult::Item(value)
    }
}

} // verus!
