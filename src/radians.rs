use vstd::prelude::*;

verus! {

/// A value measured in radians.
///
/// The wrapper makes "angle" and "plain number" distinct types: the forward
/// trigonometric functions take a `Radians<T>` and give a `T`, the inverse
/// ones take a `T` and give a `Radians<T>`.
#[derive(Clone, Copy, Debug, PartialEq)]
pub struct Radians<T>(pub T);

impl<T> Radians<T> {
    /// Tags a raw number as an angle in radians.
    pub fn new(value: T) -> (r: Self)
        ensures
            r.0 == value,
    {
        Radians(value)
    }

    /// The raw number the angle holds.
    pub fn value(self) -> (r: T)
        ensures
            r == self.0,
    {
        self.0
    }
}

} // verus!
