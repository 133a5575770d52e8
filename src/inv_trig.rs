use vstd::prelude::*;

use crate::radians::Radians;
use crate::vector::{Vec2, Vec3, Vec4};

verus! {

/// Arcsine, arccosine and arctangent of a plain number, as an angle.
///
/// Arguments outside a function's domain are not rejected: the result is
/// whatever the scalar routine gives there.  Each spec method names the
/// value that its exec method returns; an implementation written outside
/// verified code defines it as a call of that exec method.
pub trait InvTrig: Sized {
    spec fn spec_asin(&self) -> Radians<Self>;

    spec fn spec_acos(&self) -> Radians<Self>;

    spec fn spec_atan(&self) -> Radians<Self>;

    fn asin(&self) -> (r: Radians<Self>)
        ensures
            r == self.spec_asin(),
    ;

    fn acos(&self) -> (r: Radians<Self>)
        ensures
            r == self.spec_acos(),
    ;

    fn atan(&self) -> (r: Radians<Self>)
        ensures
            r == self.spec_atan(),
    ;
}

/// Arcsine of `x`, whatever the type implementing [`InvTrig`].
pub fn asin<T: InvTrig>(x: &T) -> (r: Radians<T>)
    ensures
        r == x.spec_asin(),
{
    x.asin()
}

/// Arccosine of `x`, whatever the type implementing [`InvTrig`].
pub fn acos<T: InvTrig>(x: &T) -> (r: Radians<T>)
    ensures
        r == x.spec_acos(),
{
    x.acos()
}

/// Arctangent of `x`, whatever the type implementing [`InvTrig`].
pub fn atan<T: InvTrig>(x: &T) -> (r: Radians<T>)
    ensures
        r == x.spec_atan(),
{
    x.atan()
}

/// Arcsine, arccosine and arctangent of each component of a vector.
///
/// `R` is a vector of angles of the same arity as `Self`.
pub trait InvTrigV<R>: Sized {
    spec fn spec_asin(&self) -> R;

    spec fn spec_acos(&self) -> R;

    spec fn spec_atan(&self) -> R;

    fn asin(&self) -> (r: R)
        ensures
            r == self.spec_asin(),
    ;

    fn acos(&self) -> (r: R)
        ensures
            r == self.spec_acos(),
    ;

    fn atan(&self) -> (r: R)
        ensures
            r == self.spec_atan(),
    ;
}

impl<T: InvTrig> InvTrigV<Vec2<Radians<T>>> for Vec2<T> {
    open spec fn spec_asin(&self) -> Vec2<Radians<T>> {
        Vec2 { x: self.x.spec_asin(), y: self.y.spec_asin() }
    }

    open spec fn spec_acos(&self) -> Vec2<Radians<T>> {
        Vec2 { x: self.x.spec_acos(), y: self.y.spec_acos() }
    }

    open spec fn spec_atan(&self) -> Vec2<Radians<T>> {
        Vec2 { x: self.x.spec_atan(), y: self.y.spec_atan() }
    }

    fn asin(&self) -> Vec2<Radians<T>> {
        Vec2::new(asin(&self.x), asin(&self.y))
    }

    fn acos(&self) -> Vec2<Radians<T>> {
        Vec2::new(acos(&self.x), acos(&self.y))
    }

    fn atan(&self) -> Vec2<Radians<T>> {
        Vec2::new(atan(&self.x), atan(&self.y))
    }
}

impl<T: InvTrig> InvTrigV<Vec3<Radians<T>>> for Vec3<T> {
    open spec fn spec_asin(&self) -> Vec3<Radians<T>> {
        Vec3 { x: self.x.spec_asin(), y: self.y.spec_asin(), z: self.z.spec_asin() }
    }

    open spec fn spec_acos(&self) -> Vec3<Radians<T>> {
        Vec3 { x: self.x.spec_acos(), y: self.y.spec_acos(), z: self.z.spec_acos() }
    }

    open spec fn spec_atan(&self) -> Vec3<Radians<T>> {
        Vec3 { x: self.x.spec_atan(), y: self.y.spec_atan(), z: self.z.spec_atan() }
    }

    fn asin(&self) -> Vec3<Radians<T>> {
        Vec3::new(asin(&self.x), asin(&self.y), asin(&self.z))
    }

    fn acos(&self) -> Vec3<Radians<T>> {
        Vec3::new(acos(&self.x), acos(&self.y), acos(&self.z))
    }

    fn atan(&self) -> Vec3<Radians<T>> {
        Vec3::new(atan(&self.x), atan(&self.y), atan(&self.z))
    }
}

impl<T: InvTrig> InvTrigV<Vec4<Radians<T>>> for Vec4<T> {
    open spec fn spec_asin(&self) -> Vec4<Radians<T>> {
        Vec4 {
            x: self.x.spec_asin(),
            y: self.y.spec_asin(),
            z: self.z.spec_asin(),
            w: self.w.spec_asin(),
        }
    }

    open spec fn spec_acos(&self) -> Vec4<Radians<T>> {
        Vec4 {
            x: self.x.spec_acos(),
            y: self.y.spec_acos(),
            z: self.z.spec_acos(),
            w: self.w.spec_acos(),
        }
    }

    open spec fn spec_atan(&self) -> Vec4<Radians<T>> {
        Vec4 {
            x: self.x.spec_atan(),
            y: self.y.spec_atan(),
            z: self.z.spec_atan(),
            w: self.w.spec_atan(),
        }
    }

    fn asin(&self) -> Vec4<Radians<T>> {
        Vec4::new(asin(&self.x), asin(&self.y), asin(&self.z), asin(&self.w))
    }

    fn acos(&self) -> Vec4<Radians<T>> {
        Vec4::new(acos(&self.x), acos(&self.y), acos(&self.z), acos(&self.w))
    }

    fn atan(&self) -> Vec4<Radians<T>> {
        Vec4::new(atan(&self.x), atan(&self.y), atan(&self.z), atan(&self.w))
    }
}

/// Each component of `asin`, `acos`, `atan` applied to a vector is that function applied
/// to the vector's component at the same position, for every arity.
pub proof fn lemma_inv_trig_broadcast<T>(v2: Vec2<T>, v3: Vec3<T>, v4: Vec4<T>)
    where T: InvTrig,
    ensures
        forall|i: int| 0 <= i < 2 ==> #[trigger] v2.spec_asin()@[i] == v2@[i].spec_asin(),
        forall|i: int| 0 <= i < 2 ==> #[trigger] v2.spec_acos()@[i] == v2@[i].spec_acos(),
        forall|i: int| 0 <= i < 2 ==> #[trigger] v2.spec_atan()@[i] == v2@[i].spec_atan(),
        forall|i: int| 0 <= i < 3 ==> #[trigger] v3.spec_asin()@[i] == v3@[i].spec_asin(),
        forall|i: int| 0 <= i < 3 ==> #[trigger] v3.spec_acos()@[i] == v3@[i].spec_acos(),
        forall|i: int| 0 <= i < 3 ==> #[trigger] v3.spec_atan()@[i] == v3@[i].spec_atan(),
        forall|i: int| 0 <= i < 4 ==> #[trigger] v4.spec_asin()@[i] == v4@[i].spec_asin(),
        forall|i: int| 0 <= i < 4 ==> #[trigger] v4.spec_acos()@[i] == v4@[i].spec_acos(),
        forall|i: int| 0 <= i < 4 ==> #[trigger] v4.spec_atan()@[i] == v4@[i].spec_atan(),
{
}

/// A vector of three numbers built from `a`, `b` and `c` is mapped by `asin`, `acos`, `atan`
/// to the vector built from the three scalar results, in the same order.
pub proof fn lemma_inv_trig_arity_independence<T>(a: T, b: T, c: T, v: Vec3<T>)
    where T: InvTrig,
    requires
        v@ == seq![a, b, c],
    ensures
        v.spec_asin()@ == seq![a.spec_asin(), b.spec_asin(), c.spec_asin()],
        v.spec_acos()@ == seq![a.spec_acos(), b.spec_acos(), c.spec_acos()],
        v.spec_atan()@ == seq![a.spec_atan(), b.spec_atan(), c.spec_atan()],
{
}

} // verus!
