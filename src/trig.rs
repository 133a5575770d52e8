use vstd::prelude::*;

use crate::radians::Radians;
use crate::vector::{Vec2, Vec3, Vec4};

verus! {

/// Sine, cosine and tangent of an angle.
///
/// `R` is the plain-number result: `Radians<T>` gives `T`, and a vector of
/// angles gives a vector of numbers of the same arity.  Each spec method
/// names the value that its exec method returns; an implementation written
/// outside verified code defines it as a call of that exec method.
pub trait Trig<R>: Sized {
    spec fn spec_sin(&self) -> R;

    spec fn spec_cos(&self) -> R;

    spec fn spec_tan(&self) -> R;

    fn sin(&self) -> (r: R)
        ensures
            r == self.spec_sin(),
    ;

    fn cos(&self) -> (r: R)
        ensures
            r == self.spec_cos(),
    ;

    fn tan(&self) -> (r: R)
        ensures
            r == self.spec_tan(),
    ;
}

/// Sine of `theta`, whatever the type implementing [`Trig`].
pub fn sin<T: Trig<R>, R>(theta: &T) -> (r: R)
    ensures
        r == theta.spec_sin(),
{
    theta.sin()
}

/// Cosine of `theta`, whatever the type implementing [`Trig`].
pub fn cos<T: Trig<R>, R>(theta: &T) -> (r: R)
    ensures
        r == theta.spec_cos(),
{
    theta.cos()
}

/// Tangent of `theta`, whatever the type implementing [`Trig`].
pub fn tan<T: Trig<R>, R>(theta: &T) -> (r: R)
    ensures
        r == theta.spec_tan(),
{
    theta.tan()
}

impl<T> Trig<Vec2<T>> for Vec2<Radians<T>> where Radians<T>: Trig<T> {
    open spec fn spec_sin(&self) -> Vec2<T> {
        Vec2 { x: self.x.spec_sin(), y: self.y.spec_sin() }
    }

    open spec fn spec_cos(&self) -> Vec2<T> {
        Vec2 { x: self.x.spec_cos(), y: self.y.spec_cos() }
    }

    open spec fn spec_tan(&self) -> Vec2<T> {
        Vec2 { x: self.x.spec_tan(), y: self.y.spec_tan() }
    }

    fn sin(&self) -> Vec2<T> {
        Vec2::new(sin(&self.x), sin(&self.y))
    }

    fn cos(&self) -> Vec2<T> {
        Vec2::new(cos(&self.x), cos(&self.y))
    }

    fn tan(&self) -> Vec2<T> {
        Vec2::new(tan(&self.x), tan(&self.y))
    }
}

impl<T> Trig<Vec3<T>> for Vec3<Radians<T>> where Radians<T>: Trig<T> {
    open spec fn spec_sin(&self) -> Vec3<T> {
        Vec3 { x: self.x.spec_sin(), y: self.y.spec_sin(), z: self.z.spec_sin() }
    }

    open spec fn spec_cos(&self) -> Vec3<T> {
        Vec3 { x: self.x.spec_cos(), y: self.y.spec_cos(), z: self.z.spec_cos() }
    }

    open spec fn spec_tan(&self) -> Vec3<T> {
        Vec3 { x: self.x.spec_tan(), y: self.y.spec_tan(), z: self.z.spec_tan() }
    }

    fn sin(&self) -> Vec3<T> {
        Vec3::new(sin(&self.x), sin(&self.y), sin(&self.z))
    }

    fn cos(&self) -> Vec3<T> {
        Vec3::new(cos(&self.x), cos(&self.y), cos(&self.z))
    }

    fn tan(&self) -> Vec3<T> {
        Vec3::new(tan(&self.x), tan(&self.y), tan(&self.z))
    }
}

impl<T> Trig<Vec4<T>> for Vec4<Radians<T>> where Radians<T>: Trig<T> {
    open spec fn spec_sin(&self) -> Vec4<T> {
        Vec4 {
            x: self.x.spec_sin(),
            y: self.y.spec_sin(),
            z: self.z.spec_sin(),
            w: self.w.spec_sin(),
        }
    }

    open spec fn spec_cos(&self) -> Vec4<T> {
        Vec4 {
            x: self.x.spec_cos(),
            y: self.y.spec_cos(),
            z: self.z.spec_cos(),
            w: self.w.spec_cos(),
        }
    }

    open spec fn spec_tan(&self) -> Vec4<T> {
        Vec4 {
            x: self.x.spec_tan(),
            y: self.y.spec_tan(),
            z: self.z.spec_tan(),
            w: self.w.spec_tan(),
        }
    }

    fn sin(&self) -> Vec4<T> {
        Vec4::new(sin(&self.x), sin(&self.y), sin(&self.z), sin(&self.w))
    }

    fn cos(&self) -> Vec4<T> {
        Vec4::new(cos(&self.x), cos(&self.y), cos(&self.z), cos(&self.w))
    }

    fn tan(&self) -> Vec4<T> {
        Vec4::new(tan(&self.x), tan(&self.y), tan(&self.z), tan(&self.w))
    }
}

/// Each component of `sin`, `cos`, `tan` applied to a vector is that function applied
/// to the vector's component at the same position, for every arity.
pub proof fn lemma_trig_broadcast<T>(
    v2: Vec2<Radians<T>>,
    v3: Vec3<Radians<T>>,
    v4: Vec4<Radians<T>>,
)
    where Radians<T>: Trig<T>,
    ensures
        forall|i: int| 0 <= i < 2 ==> #[trigger] v2.spec_sin()@[i] == v2@[i].spec_sin(),
        forall|i: int| 0 <= i < 2 ==> #[trigger] v2.spec_cos()@[i] == v2@[i].spec_cos(),
        forall|i: int| 0 <= i < 2 ==> #[trigger] v2.spec_tan()@[i] == v2@[i].spec_tan(),
        forall|i: int| 0 <= i < 3 ==> #[trigger] v3.spec_sin()@[i] == v3@[i].spec_sin(),
        forall|i: int| 0 <= i < 3 ==> #[trigger] v3.spec_cos()@[i] == v3@[i].spec_cos(),
        forall|i: int| 0 <= i < 3 ==> #[trigger] v3.spec_tan()@[i] == v3@[i].spec_tan(),
        forall|i: int| 0 <= i < 4 ==> #[trigger] v4.spec_sin()@[i] == v4@[i].spec_sin(),
        forall|i: int| 0 <= i < 4 ==> #[trigger] v4.spec_cos()@[i] == v4@[i].spec_cos(),
        forall|i: int| 0 <= i < 4 ==> #[trigger] v4.spec_tan()@[i] == v4@[i].spec_tan(),
{
}

/// A vector of three angles built from `a`, `b` and `c` is mapped by `sin`, `cos`, `tan`
/// to the vector built from the three scalar results, in the same order.
pub proof fn lemma_trig_arity_independence<T>(
    a: Radians<T>,
    b: Radians<T>,
    c: Radians<T>,
    v: Vec3<Radians<T>>,
)
    where Radians<T>: Trig<T>,
    requires
        v@ == seq![a, b, c],
    ensures
        v.spec_sin()@ == seq![a.spec_sin(), b.spec_sin(), c.spec_sin()],
        v.spec_cos()@ == seq![a.spec_cos(), b.spec_cos(), c.spec_cos()],
        v.spec_tan()@ == seq![a.spec_tan(), b.spec_tan(), c.spec_tan()],
{
}

} // verus!
