//! The mirror whose segment is moved.
use vstd::prelude::*;

use crate::segment::rbm::Rbm;

verus! {

/// A rigid body motion of a segment of the primary (`M1`) or of the
/// secondary (`M2`) mirror.
#[derive(Debug, Clone, Copy)]
pub enum Mirror {
    M1(Rbm),
    M2(Rbm),
}

impl Mirror {
    /// A motion of a primary mirror segment.
    pub fn m1(rbm: Rbm) -> (m: Mirror)
        ensures
            m == Mirror::M1(rbm),
    {
        Mirror::M1(rbm)
    }

    /// A motion of a secondary mirror segment.
    pub fn m2(rbm: Rbm) -> (m: Mirror)
        ensures
            m == Mirror::M2(rbm),
    {
        Mirror::M2(rbm)
    }

    /// The rigid body motion, whichever the mirror.
    pub open spec fn motion(self) -> Rbm {
        match self {
            Mirror::M1(r) => r,
            Mirror::M2(r) => r,
        }
    }
}

} // verus!
