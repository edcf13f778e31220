use vstd::prelude::*;

verus! {

/// Encoding of a value into `T`.
pub trait Serialize<T> {
    /// Whether `t` is the encoding of `self`.
    spec fn encodes(&self, t: T) -> bool;

    fn serialize(&self) -> (r: T)
        ensures
            self.encodes(r),
    ;
}

/// Decoding of a value from `T`, failing with `E`.
pub trait Deserialize<T, E>: Sized {
    /// Whether `r` is what decoding `t` gives.
    spec fn decodes(t: T, r: Result<Self, E>) -> bool;

    fn deserialize(t: T) -> (r: Result<Self, E>)
        ensures
            Self::decodes(t, r),
    ;
}

} // verus!
