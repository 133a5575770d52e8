use vstd::prelude::*;

verus! {

/// A vector of two components of one element type.
#[derive(Clone, Copy, Debug, PartialEq)]
pub struct Vec2<T> {
    pub x: T,
    pub y: T,
}

/// A vector of three components of one element type.
#[derive(Clone, Copy, Debug, PartialEq)]
pub struct Vec3<T> {
    pub x: T,
    pub y: T,
    pub z: T,
}

/// A vector of four components of one element type.
#[derive(Clone, Copy, Debug, PartialEq)]
pub struct Vec4<T> {
    pub x: T,
    pub y: T,
    pub z: T,
    pub w: T,
}

impl<T> View for Vec2<T> {
    type V = Seq<T>;

    /// The components in order.
    open spec fn view(&self) -> Seq<T> {
        seq![self.x, self.y]
    }
}

impl<T> View for Vec3<T> {
    type V = Seq<T>;

    /// The components in order.
    open spec fn view(&self) -> Seq<T> {
        seq![self.x, self.y, self.z]
    }
}

impl<T> View for Vec4<T> {
    type V = Seq<T>;

    /// The components in order.
    open spec fn view(&self) -> Seq<T> {
        seq![self.x, self.y, self.z, self.w]
    }
}

impl<T> Vec2<T> {
    /// Builds a vector from its components, in order.
    pub fn new(x: T, y: T) -> (r: Self)
        ensures
            r@ == seq![x, y],
    {
        Vec2 { x, y }
    }

    /// The component at position `i`.
    pub fn get(&self, i: usize) -> (r: &T)
        requires
            i < 2,
        ensures
            *r == self@[i as int],
    {
        if i == 0 {
            &self.x
        } else {
            &self.y
        }
    }
}

impl<T> Vec3<T> {
    /// Builds a vector from its components, in order.
    pub fn new(x: T, y: T, z: T) -> (r: Self)
        ensures
            r@ == seq![x, y, z],
    {
        Vec3 { x, y, z }
    }

    /// The component at position `i`.
    pub fn get(&self, i: usize) -> (r: &T)
        requires
            i < 3,
        ensures
            *r == self@[i as int],
    {
        if i == 0 {
            &self.x
        } else if i == 1 {
            &self.y
        } else {
            &self.z
        }
    }
}

impl<T> Vec4<T> {
    /// Builds a vector from its components, in order.
    pub fn new(x: T, y: T, z: T, w: T) -> (r: Self)
        ensures
            r@ == seq![x, y, z, w],
    {
        Vec4 { x, y, z, w }
    }

    /// The component at position `i`.
    pub fn get(&self, i: usize) -> (r: &T)
        requires
            i < 4,
        ensures
            *r == self@[i as int],
    {
        if i == 0 {
            &self.x
        } else if i == 1 {
            &self.y
        } else if i == 2 {
            &self.z
        } else {
            &self.w
        }
    }
}

} // verus!
