//! Elementwise trigonometric, inverse trigonometric and hyperbolic
//! functions over radian-tagged scalars and small fixed-arity vectors.
//!
//! Each family of functions is a capability trait.  A scalar kind provides
//! the capability once; the vector types provide it for every arity by
//! applying the scalar form to each component.  The free functions forward
//! to the capability, so the argument's type alone selects the routine.

mod hyp;
mod inv_trig;
mod radians;
mod trig;
mod vector;

pub use radians::Radians;
pub use vector::{Vec2, Vec3, Vec4};

pub use trig::{cos, sin, tan, Trig};
pub use trig::{lemma_trig_arity_independence, lemma_trig_broadcast};

pub use inv_trig::{acos, asin, atan, InvTrig, InvTrigV};
pub use inv_trig::{lemma_inv_trig_arity_independence, lemma_inv_trig_broadcast};

pub use hyp::{cosh, sinh, tanh, Hyp};
pub use hyp::{lemma_hyp_arity_independence, lemma_hyp_broadcast};
