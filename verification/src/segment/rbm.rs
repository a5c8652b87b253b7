//! Rigid body motions of a mirror segment.
use vstd::prelude::*;

use crate::segment::dof::Dof;
use crate::segment::units::{Rxyz, SkyAngle, Txyz};

verus! {

/// Rigid body motions
#[derive(Debug, Clone, Copy)]
pub struct Rbm {
    /// Translations
    pub t_xyz: [Txyz; 3],
    /// Rotations
    pub r_xyz: [Rxyz; 3],
}

/// The zero translation.
pub open spec fn t0() -> Txyz {
    Txyz::Mu(0)
}

/// The zero rotation.
pub open spec fn r0() -> Rxyz {
    SkyAngle::Arcsecond(0)
}

impl Rbm {
    /// The motion with translations `t` and rotations `r`.
    pub open spec fn holds(self, t: Seq<Txyz>, r: Seq<Rxyz>) -> bool {
        self.t_xyz@ == t && self.r_xyz@ == r
    }

    /// The motion that is `v` along translation axis `axis`, and zero elsewhere.
    pub open spec fn is_translation(self, axis: int, v: Txyz) -> bool {
        self.holds(
            seq![
                if axis == 0 { v } else { t0() },
                if axis == 1 { v } else { t0() },
                if axis == 2 { v } else { t0() },
            ],
            seq![r0(), r0(), r0()],
        )
    }

    /// The motion that is `v` around rotation axis `axis`, and zero elsewhere.
    pub open spec fn is_rotation(self, axis: int, v: Rxyz) -> bool {
        self.holds(
            seq![t0(), t0(), t0()],
            seq![
                if axis == 0 { v } else { r0() },
                if axis == 1 { v } else { r0() },
                if axis == 2 { v } else { r0() },
            ],
        )
    }

    /// The motion of the single degree of freedom `d`.
    pub open spec fn is_dof(self, d: Dof) -> bool {
        match d {
            Dof::Tx(v) => self.is_translation(0, v),
            Dof::Ty(v) => self.is_translation(1, v),
            Dof::Tz(v) => self.is_translation(2, v),
            Dof::Rx(v) => self.is_rotation(0, v),
            Dof::Ry(v) => self.is_rotation(1, v),
        }
    }

    /// No motion: zero microns and zero arcseconds on every axis.
    pub open spec fn zero() -> Rbm {
        Rbm { t_xyz: [t0(), t0(), t0()], r_xyz: [r0(), r0(), r0()] }
    }

    /// The motion of the single degree of freedom `d`, as a value.
    pub open spec fn of_dof(d: Dof) -> Rbm {
        match d {
            Dof::Tx(v) => Rbm { t_xyz: [v, t0(), t0()], r_xyz: [r0(), r0(), r0()] },
            Dof::Ty(v) => Rbm { t_xyz: [t0(), v, t0()], r_xyz: [r0(), r0(), r0()] },
            Dof::Tz(v) => Rbm { t_xyz: [t0(), t0(), v], r_xyz: [r0(), r0(), r0()] },
            Dof::Rx(v) => Rbm { t_xyz: [t0(), t0(), t0()], r_xyz: [v, r0(), r0()] },
            Dof::Ry(v) => Rbm { t_xyz: [t0(), t0(), t0()], r_xyz: [r0(), v, r0()] },
        }
    }

    /// Translation along x.
    pub fn t_x(v: Txyz) -> (r: Rbm)
        ensures
            r.is_translation(0, v),
    {
        let v0 = Txyz::Mu(0);
        let w0 = SkyAngle::Arcsecond(0);
        let r = Rbm { t_xyz: [v, v0, v0], r_xyz: [w0, w0, w0] };
        assert(r.t_xyz@ =~= seq![v, t0(), t0()]);
        assert(r.r_xyz@ =~= seq![r0(), r0(), r0()]);
        r
    }

    /// Translation along y.
    pub fn t_y(v: Txyz) -> (r: Rbm)
        ensures
            r.is_translation(1, v),
    {
        let v0 = Txyz::Mu(0);
        let w0 = SkyAngle::Arcsecond(0);
        let r = Rbm { t_xyz: [v0, v, v0], r_xyz: [w0, w0, w0] };
        assert(r.t_xyz@ =~= seq![t0(), v, t0()]);
        assert(r.r_xyz@ =~= seq![r0(), r0(), r0()]);
        r
    }

    /// Translation along z.
    pub fn t_z(v: Txyz) -> (r: Rbm)
        ensures
            r.is_translation(2, v),
    {
        let v0 = Txyz::Mu(0);
        let w0 = SkyAngle::Arcsecond(0);
        let r = Rbm { t_xyz: [v0, v0, v], r_xyz: [w0, w0, w0] };
        assert(r.t_xyz@ =~= seq![t0(), t0(), v]);
        assert(r.r_xyz@ =~= seq![r0(), r0(), r0()]);
        r
    }

    /// Rotation around x.
    pub fn r_x(v: Rxyz) -> (r: Rbm)
        ensures
            r.is_rotation(0, v),
    {
        let v0 = Txyz::Mu(0);
        let w0 = SkyAngle::Arcsecond(0);
        let r = Rbm { t_xyz: [v0, v0, v0], r_xyz: [v, w0, w0] };
        assert(r.t_xyz@ =~= seq![t0(), t0(), t0()]);
        assert(r.r_xyz@ =~= seq![v, r0(), r0()]);
        r
    }

    /// Rotation around y.
    pub fn r_y(v: Rxyz) -> (r: Rbm)
        ensures
            r.is_rotation(1, v),
    {
        let v0 = Txyz::Mu(0);
        let w0 = SkyAngle::Arcsecond(0);
        let r = Rbm { t_xyz: [v0, v0, v0], r_xyz: [w0, v, w0] };
        assert(r.t_xyz@ =~= seq![t0(), t0(), t0()]);
        assert(r.r_xyz@ =~= seq![r0(), v, r0()]);
        r
    }
}

impl From<Dof> for Rbm {
    /// The motion of a single degree of freedom.
    fn from(d: Dof) -> (r: Rbm)
        ensures
            r.is_dof(d),
    {
        let r = match d {
            Dof::Tx(v) => Rbm::t_x(v),
            Dof::Ty(v) => Rbm::t_y(v),
            Dof::Tz(v) => Rbm::t_z(v),
            Dof::Rx(v) => Rbm::r_x(v),
            Dof::Ry(v) => Rbm::r_y(v),
        };
        proof {
            let s = Rbm::of_dof(d);
            assert(r.t_xyz =~= s.t_xyz);
            assert(r.r_xyz =~= s.r_xyz);
        }
        r
    }
}

impl vstd::std_specs::convert::FromSpecImpl<Dof> for Rbm {
    open spec fn obeys_from_spec() -> bool {
        true
    }

    open spec fn from_spec(d: Dof) -> Rbm {
        Rbm::of_dof(d)
    }
}

impl Default for Rbm {
    /// No motion: zero microns and zero arcseconds on every axis.
    fn default() -> (r: Rbm)
        ensures
            r == Rbm::zero(),
            r.holds(seq![t0(), t0(), t0()], seq![r0(), r0(), r0()]),
    {
        let v0 = Txyz::Mu(0);
        let w0 = SkyAngle::Arcsecond(0);
        let r = Rbm { t_xyz: [v0, v0, v0], r_xyz: [w0, w0, w0] };
        assert(r.t_xyz@ =~= seq![t0(), t0(), t0()]);
        assert(r.r_xyz@ =~= seq![r0(), r0(), r0()]);
        assert(r.t_xyz =~= Rbm::zero().t_xyz);
        assert(r.r_xyz =~= Rbm::zero().r_xyz);
        r
    }
}

} // verus!
