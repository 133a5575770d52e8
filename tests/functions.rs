use glsl_trig::{acos, asin, atan, cos, cosh, sin, sinh, tan, tanh};
use glsl_trig::{Hyp, InvTrig, InvTrigV, Radians, Trig, Vec2, Vec3, Vec4};

/// A double-precision scalar kind.
#[derive(Clone, Copy, Debug, PartialEq)]
struct F64(f64);

/// A single-precision scalar kind, evaluated at double precision.
#[derive(Clone, Copy, Debug, PartialEq)]
struct F32(f32);

impl Trig<F64> for Radians<F64> {
    fn spec_sin(&self) -> F64 {
        self.sin()
    }
    fn spec_cos(&self) -> F64 {
        self.cos()
    }
    fn spec_tan(&self) -> F64 {
        self.tan()
    }
    fn sin(&self) -> F64 {
        F64((self.0).0.sin())
    }
    fn cos(&self) -> F64 {
        F64((self.0).0.cos())
    }
    fn tan(&self) -> F64 {
        F64((self.0).0.tan())
    }
}

impl Trig<F32> for Radians<F32> {
    fn spec_sin(&self) -> F32 {
        self.sin()
    }
    fn spec_cos(&self) -> F32 {
        self.cos()
    }
    fn spec_tan(&self) -> F32 {
        self.tan()
    }
    fn sin(&self) -> F32 {
        F32(((self.0).0 as f64).sin() as f32)
    }
    fn cos(&self) -> F32 {
        F32(((self.0).0 as f64).cos() as f32)
    }
    fn tan(&self) -> F32 {
        F32(((self.0).0 as f64).tan() as f32)
    }
}

impl InvTrig for F64 {
    fn spec_asin(&self) -> Radians<F64> {
        self.asin()
    }
    fn spec_acos(&self) -> Radians<F64> {
        self.acos()
    }
    fn spec_atan(&self) -> Radians<F64> {
        self.atan()
    }
    fn asin(&self) -> Radians<F64> {
        Radians(F64(self.0.asin()))
    }
    fn acos(&self) -> Radians<F64> {
        Radians(F64(self.0.acos()))
    }
    fn atan(&self) -> Radians<F64> {
        Radians(F64(self.0.atan()))
    }
}

impl InvTrig for F32 {
    fn spec_asin(&self) -> Radians<F32> {
        self.asin()
    }
    fn spec_acos(&self) -> Radians<F32> {
        self.acos()
    }
    fn spec_atan(&self) -> Radians<F32> {
        self.atan()
    }
    fn asin(&self) -> Radians<F32> {
        Radians(F32((self.0 as f64).asin() as f32))
    }
    fn acos(&self) -> Radians<F32> {
        Radians(F32((self.0 as f64).acos() as f32))
    }
    fn atan(&self) -> Radians<F32> {
        Radians(F32((self.0 as f64).atan() as f32))
    }
}

impl Hyp for F64 {
    fn spec_sinh(&self) -> F64 {
        Hyp::sinh(self)
    }
    fn spec_cosh(&self) -> F64 {
        Hyp::cosh(self)
    }
    fn spec_tanh(&self) -> F64 {
        Hyp::tanh(self)
    }
    fn sinh(&self) -> F64 {
        F64(self.0.sinh())
    }
    fn cosh(&self) -> F64 {
        F64(self.0.cosh())
    }
    fn tanh(&self) -> F64 {
        F64(self.0.tanh())
    }
}

impl Hyp for F32 {
    fn spec_sinh(&self) -> F32 {
        Hyp::sinh(self)
    }
    fn spec_cosh(&self) -> F32 {
        Hyp::cosh(self)
    }
    fn spec_tanh(&self) -> F32 {
        Hyp::tanh(self)
    }
    fn sinh(&self) -> F32 {
        F32((self.0 as f64).sinh() as f32)
    }
    fn cosh(&self) -> F32 {
        F32((self.0 as f64).cosh() as f32)
    }
    fn tanh(&self) -> F32 {
        F32((self.0 as f64).tanh() as f32)
    }
}

fn rad(v: f64) -> Radians<F64> {
    Radians::new(F64(v))
}

fn close(a: f64, b: f64, eps: f64) -> bool {
    (a - b).abs() <= eps
}

#[test]
fn known_values_double() {
    assert_eq!(sin(&rad(0.0)), F64(0.0));
    assert_eq!(cos(&rad(0.0)), F64(1.0));
    assert!(close(tan(&rad(std::f64::consts::FRAC_PI_4)).0, 1.0, 1e-12));
    assert_eq!(sinh(&F64(0.0)), F64(0.0));
    assert_eq!(cosh(&F64(0.0)), F64(1.0));
    assert_eq!(tanh(&F64(0.0)), F64(0.0));
}

#[test]
fn known_values_single() {
    assert_eq!(sin(&Radians(F32(0.0))), F32(0.0));
    assert_eq!(cos(&Radians(F32(0.0))), F32(1.0));
    let t = tan(&Radians(F32(std::f32::consts::FRAC_PI_4))).0;
    assert!((t - 1.0).abs() <= 1e-6);
    assert_eq!(sinh(&F32(0.0)), F32(0.0));
    assert_eq!(cosh(&F32(0.0)), F32(1.0));
}

#[test]
fn known_values_inverse() {
    assert_eq!(asin(&F64(0.0)), rad(0.0));
    assert_eq!(acos(&F64(1.0)), rad(0.0));
    assert_eq!(atan(&F64(0.0)), rad(0.0));
    assert!(close((asin(&F64(1.0)).0).0, std::f64::consts::FRAC_PI_2, 1e-12));
    assert!(close((acos(&F64(0.0)).0).0, std::f64::consts::FRAC_PI_2, 1e-12));
    assert!(close((atan(&F64(1.0)).0).0, std::f64::consts::FRAC_PI_4, 1e-12));
}

#[test]
fn arcsine_out_of_domain_is_nan() {
    assert!((asin(&F64(2.0)).0).0.is_nan());
    assert!((asin(&F32(2.0)).0).0.is_nan());
    assert!((acos(&F64(-2.0)).0).0.is_nan());
    let v = InvTrigV::asin(&Vec2::new(F64(2.0), F64(0.0)));
    assert!((v.x.0).0.is_nan());
    assert_eq!(v.y, rad(0.0));
}

#[test]
fn round_trip_sine() {
    let mut theta = -1.5;
    while theta <= 1.5 {
        let s = sin(&rad(theta));
        assert!(close((asin(&s).0).0, theta, 1e-12));
        theta += 0.125;
    }
}

#[test]
fn round_trip_cosine() {
    let mut theta = 0.125;
    while theta <= 3.0 {
        let c = cos(&rad(theta));
        assert!(close((acos(&c).0).0, theta, 1e-12));
        theta += 0.125;
    }
}

#[test]
fn round_trip_tangent() {
    let mut theta = -1.5;
    while theta <= 1.5 {
        let t = tan(&rad(theta));
        assert!(close((atan(&t).0).0, theta, 1e-12));
        theta += 0.125;
    }
}

#[test]
fn width_consistency() {
    let mut x: f32 = -2.0;
    while x <= 2.0 {
        let narrow = sin(&Radians(F32(x))).0;
        let direct = x.sin();
        assert!((narrow - direct).abs() <= 2.0 * f32::EPSILON);
        let narrow = sinh(&F32(x)).0;
        let direct = x.sinh();
        assert!((narrow - direct).abs() <= 4.0 * f32::EPSILON * direct.abs().max(1.0));
        x += 0.25;
    }
}

#[test]
fn broadcast_forward_vec2() {
    let v = Vec2::new(rad(0.5), rad(-1.25));
    let s = sin(&v);
    let c = cos(&v);
    let t = tan(&v);
    for i in 0..2 {
        assert_eq!(*s.get(i), sin(v.get(i)));
        assert_eq!(*c.get(i), cos(v.get(i)));
        assert_eq!(*t.get(i), tan(v.get(i)));
    }
}

#[test]
fn broadcast_forward_vec4() {
    let v = Vec4::new(rad(0.5), rad(-1.25), rad(2.0), rad(3.0));
    let s = sin(&v);
    let c = cos(&v);
    let t = tan(&v);
    for i in 0..4 {
        assert_eq!(*s.get(i), sin(v.get(i)));
        assert_eq!(*c.get(i), cos(v.get(i)));
        assert_eq!(*t.get(i), tan(v.get(i)));
    }
}

#[test]
fn broadcast_inverse_vec2() {
    let v = Vec2::new(F64(0.25), F64(-0.75));
    let s = InvTrigV::asin(&v);
    let c = InvTrigV::acos(&v);
    let t = InvTrigV::atan(&v);
    for i in 0..2 {
        assert_eq!(*s.get(i), asin(v.get(i)));
        assert_eq!(*c.get(i), acos(v.get(i)));
        assert_eq!(*t.get(i), atan(v.get(i)));
    }
}

#[test]
fn broadcast_inverse_vec4() {
    let v = Vec4::new(F32(0.25), F32(-0.75), F32(1.0), F32(0.0));
    let s = InvTrigV::asin(&v);
    let c = InvTrigV::acos(&v);
    let t = InvTrigV::atan(&v);
    for i in 0..4 {
        assert_eq!(*s.get(i), asin(v.get(i)));
        assert_eq!(*c.get(i), acos(v.get(i)));
        assert_eq!(*t.get(i), atan(v.get(i)));
    }
}

#[test]
fn broadcast_hyperbolic_vec2() {
    let v = Vec2::new(F64(0.5), F64(-2.0));
    let s = sinh(&v);
    let c = cosh(&v);
    let t = tanh(&v);
    for i in 0..2 {
        assert_eq!(*s.get(i), sinh(v.get(i)));
        assert_eq!(*c.get(i), cosh(v.get(i)));
        assert_eq!(*t.get(i), tanh(v.get(i)));
    }
}

#[test]
fn broadcast_hyperbolic_vec4() {
    let v = Vec4::new(F32(0.5), F32(-2.0), F32(0.0), F32(3.0));
    let s = sinh(&v);
    let c = cosh(&v);
    let t = tanh(&v);
    for i in 0..4 {
        assert_eq!(*s.get(i), sinh(v.get(i)));
        assert_eq!(*c.get(i), cosh(v.get(i)));
        assert_eq!(*t.get(i), tanh(v.get(i)));
    }
}

#[test]
fn arity_independence_forward() {
    let (a, b, c) = (rad(0.3), rad(-0.7), rad(1.1));
    let v = Vec3::new(a, b, c);
    assert_eq!(sin(&v), Vec3::new(sin(&a), sin(&b), sin(&c)));
    assert_eq!(cos(&v), Vec3::new(cos(&a), cos(&b), cos(&c)));
    assert_eq!(tan(&v), Vec3::new(tan(&a), tan(&b), tan(&c)));
}

#[test]
fn arity_independence_inverse() {
    let (a, b, c) = (F64(0.3), F64(-0.7), F64(1.0));
    let v = Vec3::new(a, b, c);
    assert_eq!(InvTrigV::asin(&v), Vec3::new(asin(&a), asin(&b), asin(&c)));
    assert_eq!(InvTrigV::acos(&v), Vec3::new(acos(&a), acos(&b), acos(&c)));
    assert_eq!(InvTrigV::atan(&v), Vec3::new(atan(&a), atan(&b), atan(&c)));
}

#[test]
fn arity_independence_hyperbolic() {
    let (a, b, c) = (F64(0.3), F64(-0.7), F64(1.1));
    let v = Vec3::new(a, b, c);
    assert_eq!(sinh(&v), Vec3::new(sinh(&a), sinh(&b), sinh(&c)));
    assert_eq!(cosh(&v), Vec3::new(cosh(&a), cosh(&b), cosh(&c)));
    assert_eq!(tanh(&v), Vec3::new(tanh(&a), tanh(&b), tanh(&c)));
}

#[test]
fn vector_components_in_order() {
    let v = Vec4::new(1u8, 2, 3, 4);
    assert_eq!((*v.get(0), *v.get(1), *v.get(2), *v.get(3)), (1, 2, 3, 4));
    let w = Vec3::new('a', 'b', 'c');
    assert_eq!((w.x, w.y, w.z), ('a', 'b', 'c'));
    let u = Vec2::new(7i32, -7);
    assert_eq!(*u.get(1), -7);
}

#[test]
fn radians_wraps_value() {
    let r = Radians::new(F64(1.5));
    assert_eq!(r.value(), F64(1.5));
    assert_eq!(r, Radians(F64(1.5)));
}

#[test]
fn forward_results_differ_from_argument() {
    let s = sin(&rad(1.0)).0;
    assert!(close(s, 0.8414709848078965, 1e-15));
    let h = cosh(&Vec2::new(F64(1.0), F64(-1.0)));
    assert!(close(h.x.0, 1.5430806348152437, 1e-15));
    assert_eq!(h.x, h.y);
}
