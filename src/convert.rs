use vstd::prelude::*;

verus! {

/// An `Option` that the host runtime sees as `null` when it is `None`.
#[derive(Debug, Clone, PartialEq, Eq, PartialOrd, Ord, Hash)]
pub struct OptionNull<T>(pub Option<T>);

impl<T> From<Option<T>> for OptionNull<T> {
    fn from(option: Option<T>) -> (r: Self) {
        OptionNull(option)
    }
}

impl<T> vstd::std_specs::convert::FromSpecImpl<Option<T>> for OptionNull<T> {
    open spec fn obeys_from_spec() -> bool {
        true
    }

    open spec fn from_spec(v: Option<T>) -> Self {
        OptionNull(v)
    }
}

impl<T> From<OptionNull<T>> for Option<T> {
    fn from(value: OptionNull<T>) -> (r: Self) {
        value.0
    }
}

impl<T> vstd::std_specs::convert::FromSpecImpl<OptionNull<T>> for Option<T> {
    open spec fn obeys_from_spec() -> bool {
        true
    }

    open spec fn from_spec(v: OptionNull<T>) -> Self {
        v.0
    }
}

/// A tuple that the host runtime sees as an array of its fields.
pub struct TupleArray<T>(pub T);

impl<T> From<T> for TupleArray<T> {
    fn from(value: T) -> (r: Self) {
        TupleArray(value)
    }
}

impl<T> vstd::std_specs::convert::FromSpecImpl<T> for TupleArray<T> {
    open spec fn obeys_from_spec() -> bool {
        true
    }

    open spec fn from_spec(v: T) -> Self {
        TupleArray(v)
    }
}

/// A vector that the host runtime sees as an array.
pub struct VecArray<T>(pub Vec<T>);

impl<T> From<Vec<T>> for VecArray<T> {
    fn from(value: Vec<T>) -> (r: Self) {
        VecArray(value)
    }
}

impl<T> vstd::std_specs::convert::FromSpecImpl<Vec<T>> for VecArray<T> {
    open spec fn obeys_from_spec() -> bool {
        true
    }

    open spec fn from_spec(v: Vec<T>) -> Self {
        VecArray(v)
    }
}

/// A type that wraps exactly one value of another type and adds nothing to it.
pub trait TransparentWrapper<T>: Sized {
    spec fn inner(&self) -> T;

    fn from_inner(inner: T) -> (r: Self)
        ensures
            r.inner() == inner,
    ;

    fn into_inner(self) -> (r: T)
        ensures
            r == self.inner(),
    ;
}

/// A value that crosses to the host runtime through its serde representation.
pub struct SerdeWrapper<T>(pub T);

impl<T> TransparentWrapper<T> for SerdeWrapper<T> {
    open spec fn inner(&self) -> T {
        self.0
    }

    fn from_inner(inner: T) -> (r: Self) {
        SerdeWrapper(inner)
    }

    fn into_inner(self) -> (r: T) {
        self.0
    }
}

} // verus!
