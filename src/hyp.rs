use vstd::prelude::*;

use crate::vector::{Vec2, Vec3, Vec4};

verus! {

/// Hyperbolic sine, cosine and tangent, from a plain number to a plain
/// number of the same type.
///
/// Each spec method names the value that its exec method returns; an
/// implementation written outside verified code defines it as a call of
/// that exec method.
pub trait Hyp: Sized {
    spec fn spec_sinh(&self) -> Self;

    spec fn spec_cosh(&self) -> Self;

    spec fn spec_tanh(&self) -> Self;

    fn sinh(&self) -> (r: Self)
        ensures
            r == self.spec_sinh(),
    ;

    fn cosh(&self) -> (r: Self)
        ensures
            r == self.spec_cosh(),
    ;

    fn tanh(&self) -> (r: Self)
        ensures
            r == self.spec_tanh(),
    ;
}

/// Hyperbolic sine of `x`, whatever the type implementing [`Hyp`].
pub fn sinh<T: Hyp>(x: &T) -> (r: T)
    ensures
        r == x.spec_sinh(),
{
    x.sinh()
}

/// Hyperbolic cosine of `x`, whatever the type implementing [`Hyp`].
pub fn cosh<T: Hyp>(x: &T) -> (r: T)
    ensures
        r == x.spec_cosh(),
{
    x.cosh()
}

/// Hyperbolic tangent of `x`, whatever the type implementing [`Hyp`].
pub fn tanh<T: Hyp>(x: &T) -> (r: T)
    ensures
        r == x.spec_tanh(),
{
    x.tanh()
}

impl<T: Hyp> Hyp for Vec2<T> {
    open spec fn spec_sinh(&self) -> Vec2<T> {
        Vec2 { x: self.x.spec_sinh(), y: self.y.spec_sinh() }
    }

    open spec fn spec_cosh(&self) -> Vec2<T> {
        Vec2 { x: self.x.spec_cosh(), y: self.y.spec_cosh() }
    }

    open spec fn spec_tanh(&self) -> Vec2<T> {
        Vec2 { x: self.x.spec_tanh(), y: self.y.spec_tanh() }
    }

    fn sinh(&self) -> Vec2<T> {
        Vec2::new(sinh(&self.x), sinh(&self.y))
    }

    fn cosh(&self) -> Vec2<T> {
        Vec2::new(cosh(&self.x), cosh(&self.y))
    }

    fn tanh(&self) -> Vec2<T> {
        Vec2::new(tanh(&self.x), tanh(&self.y))
    }
}

impl<T: Hyp> Hyp for Vec3<T> {
    open spec fn spec_sinh(&self) -> Vec3<T> {
        Vec3 { x: self.x.spec_sinh(), y: self.y.spec_sinh(), z: self.z.spec_sinh() }
    }

    open spec fn spec_cosh(&self) -> Vec3<T> {
        Vec3 { x: self.x.spec_cosh(), y: self.y.spec_cosh(), z: self.z.spec_cosh() }
    }

    open spec fn spec_tanh(&self) -> Vec3<T> {
        Vec3 { x: self.x.spec_tanh(), y: self.y.spec_tanh(), z: self.z.spec_tanh() }
    }

    fn sinh(&self) -> Vec3<T> {
        Vec3::new(sinh(&self.x), sinh(&self.y), sinh(&self.z))
    }

    fn cosh(&self) -> Vec3<T> {
        Vec3::new(cosh(&self.x), cosh(&self.y), cosh(&self.z))
    }

    fn tanh(&self) -> Vec3<T> {
        Vec3::new(tanh(&self.x), tanh(&self.y), tanh(&self.z))
    }
}

impl<T: Hyp> Hyp for Vec4<T> {
    open spec fn spec_sinh(&self) -> Vec4<T> {
        Vec4 {
            x: self.x.spec_sinh(),
            y: self.y.spec_sinh(),
            z: self.z.spec_sinh(),
            w: self.w.spec_sinh(),
        }
    }

    open spec fn spec_cosh(&self) -> Vec4<T> {
        Vec4 {
            x: self.x.spec_cosh(),
            y: self.y.spec_cosh(),
            z: self.z.spec_cosh(),
            w: self.w.spec_cosh(),
        }
    }

    open spec fn spec_tanh(&self) -> Vec4<T> {
        Vec4 {
            x: self.x.spec_tanh(),
            y: self.y.spec_tanh(),
            z: self.z.spec_tanh(),
            w: self.w.spec_tanh(),
        }
    }

    fn sinh(&self) -> Vec4<T> {
        Vec4::new(sinh(&self.x), sinh(&self.y), sinh(&self.z), sinh(&self.w))
    }

    fn cosh(&self) -> Vec4<T> {
        Vec4::new(cosh(&self.x), cosh(&self.y), cosh(&self.z), cosh(&self.w))
    }

    fn tanh(&self) -> Vec4<T> {
        Vec4::new(tanh(&self.x), tanh(&self.y), tanh(&self.z), tanh(&self.w))
    }
}

/// Each component of `sinh`, `cosh`, `tanh` applied to a vector is that function applied
/// to the vector's component at the same position, for every arity.
pub proof fn lemma_hyp_broadcast<T>(v2: Vec2<T>, v3: Vec3<T>, v4: Vec4<T>)
    where T: Hyp,
    ensures
        forall|i: int| 0 <= i < 2 ==> #[trigger] v2.spec_sinh()@[i] == v2@[i].spec_sinh(),
        forall|i: int| 0 <= i < 2 ==> #[trigger] v2.spec_cosh()@[i] == v2@[i].spec_cosh(),
        forall|i: int| 0 <= i < 2 ==> #[trigger] v2.spec_tanh()@[i] == v2@[i].spec_tanh(),
        forall|i: int| 0 <= i < 3 ==> #[trigger] v3.spec_sinh()@[i] == v3@[i].spec_sinh(),
        forall|i: int| 0 <= i < 3 ==> #[trigger] v3.spec_cosh()@[i] == v3@[i].spec_cosh(),
        forall|i: int| 0 <= i < 3 ==> #[trigger] v3.spec_tanh()@[i] == v3@[i].spec_tanh(),
        forall|i: int| 0 <= i < 4 ==> #[trigger] v4.spec_sinh()@[i] == v4@[i].spec_sinh(),
        forall|i: int| 0 <= i < 4 ==> #[trigger] v4.spec_cosh()@[i] == v4@[i].spec_cosh(),
        forall|i: int| 0 <= i < 4 ==> #[trigger] v4.spec_tanh()@[i] == v4@[i].spec_tanh(),
{
}

/// A vector of three numbers built from `a`, `b` and `c` is mapped by `sinh`, `cosh`, `tanh`
/// to the vector built from the three scalar results, in the same order.
pub proof fn lemma_hyp_arity_independence<T>(a: T, b: T, c: T, v: Vec3<T>)
    where T: Hyp,
    requires
        v@ == seq![a, b, c],
    ensures
        v.spec_sinh()@ == seq![a.spec_sinh(), b.spec_sinh(), c.spec_sinh()],
        v.spec_cosh()@ == seq![a.spec_cosh(), b.spec_cosh(), c.spec_cosh()],
        v.spec_tanh()@ == seq![a.spec_tanh(), b.spec_tanh(), c.spec_tanh()],
{
}

} // verus!
