//! Degrees of freedom of a mirror segment rigid body motion.
use vstd::prelude::*;

use crate::segment::units::{
    lemma_rxyz_neg_involutive, lemma_rxyz_negated, lemma_txyz_neg_involutive, lemma_txyz_negated,
    Rxyz, SkyAngle, Txyz,
};

verus! {

/// Bit pattern of the binary64 value `1.0`.
pub const ONE_F64_BITS: u64 = 0x3FF0_0000_0000_0000u64;

/// One degree of freedom of a rigid body motion, with its amplitude.
#[derive(Debug, Clone, Copy, PartialEq, Eq, Structural)]
pub enum Dof {
    Tx(Txyz),
    Ty(Txyz),
    Tz(Txyz),
    Rx(Rxyz),
    Ry(Rxyz),
}

impl Dof {
    /// The opposite degree of freedom: same axis and unit, opposite amplitude.
    pub open spec fn negated(self) -> Dof {
        match self {
            Dof::Tx(t) => Dof::Tx(t.negated()),
            Dof::Ty(t) => Dof::Ty(t.negated()),
            Dof::Tz(t) => Dof::Tz(t.negated()),
            Dof::Rx(a) => Dof::Rx(a.negated()),
            Dof::Ry(a) => Dof::Ry(a.negated()),
        }
    }

    /// The tip and tilt rotations of one arcsecond.
    pub open spec fn spec_r_xy() -> Seq<Dof> {
        seq![Dof::Rx(SkyAngle::Arcsecond(ONE_F64_BITS)), Dof::Ry(SkyAngle::Arcsecond(ONE_F64_BITS))]
    }

    /// The translations of one micron along x, y and z followed by
    /// the rotations of one arcsecond around x and y.
    pub open spec fn spec_all() -> Seq<Dof> {
        seq![
            Dof::Tx(Txyz::Mu(ONE_F64_BITS)),
            Dof::Ty(Txyz::Mu(ONE_F64_BITS)),
            Dof::Tz(Txyz::Mu(ONE_F64_BITS)),
            Dof::Rx(SkyAngle::Arcsecond(ONE_F64_BITS)),
            Dof::Ry(SkyAngle::Arcsecond(ONE_F64_BITS)),
        ]
    }

    /// Rotations of one arcsecond around x and y.
    pub fn r_xy() -> (v: Vec<Dof>)
        ensures
            v@ == Self::spec_r_xy(),
    {
        let v = vec![Dof::Rx(SkyAngle::Arcsecond(ONE_F64_BITS)), Dof::Ry(SkyAngle::Arcsecond(ONE_F64_BITS))];
        assert(v@ =~= Self::spec_r_xy());
        v
    }

    /// Unit translations (one micron) along x, y and z, then unit rotations
    /// (one arcsecond) around x and y.
    pub fn into_iter() -> (v: Vec<Dof>)
        ensures
            v@ == Self::spec_all(),
    {
        let v = vec![
            Dof::Tx(Txyz::Mu(ONE_F64_BITS)),
            Dof::Ty(Txyz::Mu(ONE_F64_BITS)),
            Dof::Tz(Txyz::Mu(ONE_F64_BITS)),
            Dof::Rx(SkyAngle::Arcsecond(ONE_F64_BITS)),
            Dof::Ry(SkyAngle::Arcsecond(ONE_F64_BITS)),
        ];
        assert(v@ =~= Self::spec_all());
        v
    }

    /// The number of degrees of freedom that [Dof::into_iter] lists, the
    /// number of columns of a calibration over them.
    pub fn len() -> (n: usize)
        ensures
            n == Self::spec_all().len(),
    {
        5
    }

    /// The opposite degree of freedom.
    pub fn neg(self) -> (r: Dof)
        ensures
            r == self.negated(),
            self matches Dof::Tx(t) ==> r matches Dof::Tx(u) && u.value() == t.value() ^ 0x8000_0000_0000_0000u64
                && (u is Mu) == (t is Mu),
            self matches Dof::Ty(t) ==> r matches Dof::Ty(u) && u.value() == t.value() ^ 0x8000_0000_0000_0000u64
                && (u is Mu) == (t is Mu),
            self matches Dof::Tz(t) ==> r matches Dof::Tz(u) && u.value() == t.value() ^ 0x8000_0000_0000_0000u64
                && (u is Mu) == (t is Mu),
            self matches Dof::Rx(a) ==> r matches Dof::Rx(b) && b == a.negated(),
            self matches Dof::Ry(a) ==> r matches Dof::Ry(b) && b == a.negated(),
    {
        match self {
            Dof::Tx(t) => Dof::Tx(t.neg()),
            Dof::Ty(t) => Dof::Ty(t.neg()),
            Dof::Tz(t) => Dof::Tz(t.neg()),
            Dof::Rx(a) => Dof::Rx(a.neg()),
            Dof::Ry(a) => Dof::Ry(a.neg()),
        }
    }
}

/// Negating a degree of freedom twice gives it back.
pub proof fn lemma_dof_neg_involutive(d: Dof)
    ensures
        d.negated().negated() == d,
{
    match d {
        Dof::Tx(t) => lemma_txyz_neg_involutive(t),
        Dof::Ty(t) => lemma_txyz_neg_involutive(t),
        Dof::Tz(t) => lemma_txyz_neg_involutive(t),
        Dof::Rx(a) => lemma_rxyz_neg_involutive(a),
        Dof::Ry(a) => lemma_rxyz_neg_involutive(a),
    }
}

/// Negating a degree of freedom keeps its axis and its unit and flips exactly
/// the sign bit of its amplitude.
pub proof fn lemma_dof_negated(d: Dof)
    ensures
        d matches Dof::Tx(Txyz::Mu(x)) ==> d.negated() == Dof::Tx(Txyz::Mu(x ^ 0x8000_0000_0000_0000u64)),
        d matches Dof::Tx(Txyz::Nm(x)) ==> d.negated() == Dof::Tx(Txyz::Nm(x ^ 0x8000_0000_0000_0000u64)),
        d matches Dof::Ty(Txyz::Mu(x)) ==> d.negated() == Dof::Ty(Txyz::Mu(x ^ 0x8000_0000_0000_0000u64)),
        d matches Dof::Ty(Txyz::Nm(x)) ==> d.negated() == Dof::Ty(Txyz::Nm(x ^ 0x8000_0000_0000_0000u64)),
        d matches Dof::Tz(Txyz::Mu(x)) ==> d.negated() == Dof::Tz(Txyz::Mu(x ^ 0x8000_0000_0000_0000u64)),
        d matches Dof::Tz(Txyz::Nm(x)) ==> d.negated() == Dof::Tz(Txyz::Nm(x ^ 0x8000_0000_0000_0000u64)),
        d matches Dof::Rx(a) ==> d.negated() matches Dof::Rx(b) && b.value() == a.value()
            ^ 0x8000_0000_0000_0000u64 && (b is Radian) == (a is Radian) && (b is Degree) == (a is Degree)
            && (b is Arcminute) == (a is Arcminute) && (b is Arcsecond) == (a is Arcsecond),
        d matches Dof::Ry(a) ==> d.negated() matches Dof::Ry(b) && b.value() == a.value()
            ^ 0x8000_0000_0000_0000u64 && (b is Radian) == (a is Radian) && (b is Degree) == (a is Degree)
            && (b is Arcminute) == (a is Arcminute) && (b is Arcsecond) == (a is Arcsecond),
{
    match d {
        Dof::Tx(t) => lemma_txyz_negated(t),
        Dof::Ty(t) => lemma_txyz_negated(t),
        Dof::Tz(t) => lemma_txyz_negated(t),
        Dof::Rx(a) => lemma_rxyz_negated(a),
        Dof::Ry(a) => lemma_rxyz_negated(a),
    }
}

} // verus!
