//! Units of rigid body motions: translations and sky angles.
use vstd::prelude::*;

verus! {

/// Bit mask of the sign bit of an IEEE-754 binary64 value.
pub const SIGN_BIT_64: u64 = 0x8000_0000_0000_0000u64;

/// Bit mask of the sign bit of an IEEE-754 binary32 value.
pub const SIGN_BIT_32: u32 = 0x8000_0000u32;

/// The bit pattern of the negation of the binary64 value with bit pattern `x`:
/// IEEE-754 negation flips the sign bit and nothing else.
pub open spec fn neg_bits64(x: u64) -> u64 {
    x ^ SIGN_BIT_64
}

/// The bit pattern of the negation of the binary32 value with bit pattern `x`.
pub open spec fn neg_bits32(x: u32) -> u32 {
    x ^ SIGN_BIT_32
}

/// Negating twice gives back the original bit pattern.
pub proof fn lemma_neg_bits64_involutive(x: u64)
    ensures
        neg_bits64(neg_bits64(x)) == x,
{
    assert((x ^ 0x8000_0000_0000_0000u64) ^ 0x8000_0000_0000_0000u64 == x) by (bit_vector);
}

/// Negating twice gives back the original bit pattern.
pub proof fn lemma_neg_bits32_involutive(x: u32)
    ensures
        neg_bits32(neg_bits32(x)) == x,
{
    assert((x ^ 0x8000_0000u32) ^ 0x8000_0000u32 == x) by (bit_vector);
}

/// Units for rigid body motion translations; the payload is the bit pattern
/// of the binary64 value.
#[derive(Debug, Clone, Copy, PartialEq, Eq, Structural)]
pub enum Txyz {
    /// Microns
    Mu(u64),
    /// Nanometers
    Nm(u64),
}

impl Txyz {
    /// The stored value, whatever its unit.
    pub open spec fn value(self) -> u64 {
        match self {
            Txyz::Mu(v) => v,
            Txyz::Nm(v) => v,
        }
    }

    /// The same unit holding `v`.
    pub open spec fn with_value(self, v: u64) -> Txyz {
        match self {
            Txyz::Mu(_) => Txyz::Mu(v),
            Txyz::Nm(_) => Txyz::Nm(v),
        }
    }

    /// The opposite translation: same unit, sign bit flipped.
    pub open spec fn negated(self) -> Txyz {
        self.with_value(neg_bits64(self.value()))
    }

    /// Returns the stored value, whatever its unit.
    pub fn into_value(self) -> (v: u64)
        ensures
            v == self.value(),
    {
        match self {
            Txyz::Mu(v) => v,
            Txyz::Nm(v) => v,
        }
    }

    /// The opposite translation, in the same unit.
    pub fn neg(self) -> (r: Txyz)
        ensures
            r == self.negated(),
            self matches Txyz::Mu(x) ==> r == Txyz::Mu(x ^ SIGN_BIT_64),
            self matches Txyz::Nm(x) ==> r == Txyz::Nm(x ^ SIGN_BIT_64),
    {
        match self {
            Txyz::Mu(x) => Txyz::Mu(x ^ SIGN_BIT_64),
            Txyz::Nm(x) => Txyz::Nm(x ^ SIGN_BIT_64),
        }
    }
}

impl Default for Txyz {
    /// Zero microns.
    fn default() -> (r: Txyz)
        ensures
            r == Txyz::Mu(0),
    {
        Txyz::Mu(0)
    }
}

/// A sky angle in one of five units; the payload `T` is the bit pattern of
/// the floating-point value (`u64` for binary64, `u32` for binary32).
#[derive(Debug, Clone, Copy, PartialEq, Eq, Structural)]
pub enum SkyAngle<T> {
    Radian(T),
    Degree(T),
    Arcminute(T),
    Arcsecond(T),
    MilliArcsec(T),
}

/// Units for rigid body motion rotations: a binary64 sky angle.
pub type Rxyz = SkyAngle<u64>;

impl<T: Copy> SkyAngle<T> {
    /// The stored value, whatever its unit.
    pub open spec fn value(self) -> T {
        match self {
            SkyAngle::Radian(v) => v,
            SkyAngle::Degree(v) => v,
            SkyAngle::Arcminute(v) => v,
            SkyAngle::Arcsecond(v) => v,
            SkyAngle::MilliArcsec(v) => v,
        }
    }

    /// The same unit holding `v`.
    pub open spec fn with_value(self, v: T) -> SkyAngle<T> {
        match self {
            SkyAngle::Radian(_) => SkyAngle::Radian(v),
            SkyAngle::Degree(_) => SkyAngle::Degree(v),
            SkyAngle::Arcminute(_) => SkyAngle::Arcminute(v),
            SkyAngle::Arcsecond(_) => SkyAngle::Arcsecond(v),
            SkyAngle::MilliArcsec(_) => SkyAngle::MilliArcsec(v),
        }
    }

    /// Returns the stored value, whatever its unit.
    pub fn into_value(self) -> (v: T)
        ensures
            v == self.value(),
    {
        match self {
            SkyAngle::Radian(v) => v,
            SkyAngle::Degree(v) => v,
            SkyAngle::Arcminute(v) => v,
            SkyAngle::Arcsecond(v) => v,
            SkyAngle::MilliArcsec(v) => v,
        }
    }
}

impl SkyAngle<u64> {
    /// The opposite angle: same unit, sign bit flipped.
    pub open spec fn negated(self) -> SkyAngle<u64> {
        self.with_value(neg_bits64(self.value()))
    }

    /// The opposite angle, in the same unit.
    pub fn neg(self) -> (r: SkyAngle<u64>)
        ensures
            r == self.negated(),
            self matches SkyAngle::Radian(x) ==> r == SkyAngle::<u64>::Radian(x ^ SIGN_BIT_64),
            self matches SkyAngle::Degree(x) ==> r == SkyAngle::<u64>::Degree(x ^ SIGN_BIT_64),
            self matches SkyAngle::Arcminute(x) ==> r == SkyAngle::<u64>::Arcminute(x ^ SIGN_BIT_64),
            self matches SkyAngle::Arcsecond(x) ==> r == SkyAngle::<u64>::Arcsecond(x ^ SIGN_BIT_64),
            self matches SkyAngle::MilliArcsec(x) ==> r == SkyAngle::<u64>::MilliArcsec(x ^ SIGN_BIT_64),
    {
        match self {
            SkyAngle::Radian(x) => SkyAngle::Radian(x ^ SIGN_BIT_64),
            SkyAngle::Degree(x) => SkyAngle::Degree(x ^ SIGN_BIT_64),
            SkyAngle::Arcminute(x) => SkyAngle::Arcminute(x ^ SIGN_BIT_64),
            SkyAngle::Arcsecond(x) => SkyAngle::Arcsecond(x ^ SIGN_BIT_64),
            SkyAngle::MilliArcsec(x) => SkyAngle::MilliArcsec(x ^ SIGN_BIT_64),
        }
    }
}

impl SkyAngle<u32> {
    /// The opposite angle: same unit, sign bit flipped.
    pub open spec fn negated(self) -> SkyAngle<u32> {
        self.with_value(neg_bits32(self.value()))
    }

    /// The opposite angle, in the same unit.
    pub fn neg(self) -> (r: SkyAngle<u32>)
        ensures
            r == self.negated(),
            self matches SkyAngle::Radian(x) ==> r == SkyAngle::<u32>::Radian(x ^ SIGN_BIT_32),
            self matches SkyAngle::Degree(x) ==> r == SkyAngle::<u32>::Degree(x ^ SIGN_BIT_32),
            self matches SkyAngle::Arcminute(x) ==> r == SkyAngle::<u32>::Arcminute(x ^ SIGN_BIT_32),
            self matches SkyAngle::Arcsecond(x) ==> r == SkyAngle::<u32>::Arcsecond(x ^ SIGN_BIT_32),
            self matches SkyAngle::MilliArcsec(x) ==> r == SkyAngle::<u32>::MilliArcsec(x ^ SIGN_BIT_32),
    {
        match self {
            SkyAngle::Radian(x) => SkyAngle::Radian(x ^ SIGN_BIT_32),
            SkyAngle::Degree(x) => SkyAngle::Degree(x ^ SIGN_BIT_32),
            SkyAngle::Arcminute(x) => SkyAngle::Arcminute(x ^ SIGN_BIT_32),
            SkyAngle::Arcsecond(x) => SkyAngle::Arcsecond(x ^ SIGN_BIT_32),
            SkyAngle::MilliArcsec(x) => SkyAngle::MilliArcsec(x ^ SIGN_BIT_32),
        }
    }
}

impl Default for SkyAngle<u64> {
    /// Zero arcseconds.
    fn default() -> (r: SkyAngle<u64>)
        ensures
            r == SkyAngle::<u64>::Arcsecond(0),
    {
        SkyAngle::Arcsecond(0)
    }
}

impl Default for SkyAngle<u32> {
    /// Zero arcseconds.
    fn default() -> (r: SkyAngle<u32>)
        ensures
            r == SkyAngle::<u32>::Arcsecond(0),
    {
        SkyAngle::Arcsecond(0)
    }
}

/// Negating a translation twice gives it back.
pub proof fn lemma_txyz_neg_involutive(t: Txyz)
    ensures
        t.negated().negated() == t,
{
    lemma_neg_bits64_involutive(t.value());
}

/// Negating a binary64 sky angle twice gives it back.
pub proof fn lemma_rxyz_neg_involutive(a: SkyAngle<u64>)
    ensures
        a.negated().negated() == a,
{
    lemma_neg_bits64_involutive(a.value());
}

/// Negating a binary32 sky angle twice gives it back.
pub proof fn lemma_sky_angle32_neg_involutive(a: SkyAngle<u32>)
    ensures
        a.negated().negated() == a,
{
    lemma_neg_bits32_involutive(a.value());
}

/// Negation changes a translation's value and keeps its unit.
pub proof fn lemma_txyz_neg_keeps_unit(t: Txyz)
    ensures
        t.negated().value() == neg_bits64(t.value()),
        t.negated().value() != t.value(),
        (t is Mu) == (t.negated() is Mu),
{
    let x = t.value();
    assert(x ^ 0x8000_0000_0000_0000u64 != x) by (bit_vector);
}

/// Negating a translation keeps its unit and flips exactly the sign bit of
/// its value.
pub proof fn lemma_txyz_negated(t: Txyz)
    ensures
        t matches Txyz::Mu(x) ==> t.negated() == Txyz::Mu(x ^ 0x8000_0000_0000_0000u64),
        t matches Txyz::Nm(x) ==> t.negated() == Txyz::Nm(x ^ 0x8000_0000_0000_0000u64),
{
}

/// Negating a binary64 sky angle keeps its unit, whichever it is, and flips
/// exactly the sign bit of its value.
pub proof fn lemma_rxyz_negated(a: SkyAngle<u64>)
    ensures
        a matches SkyAngle::Radian(x) ==> a.negated() == SkyAngle::<u64>::Radian(
            x ^ 0x8000_0000_0000_0000u64,
        ),
        a matches SkyAngle::Degree(x) ==> a.negated() == SkyAngle::<u64>::Degree(
            x ^ 0x8000_0000_0000_0000u64,
        ),
        a matches SkyAngle::Arcminute(x) ==> a.negated() == SkyAngle::<u64>::Arcminute(
            x ^ 0x8000_0000_0000_0000u64,
        ),
        a matches SkyAngle::Arcsecond(x) ==> a.negated() == SkyAngle::<u64>::Arcsecond(
            x ^ 0x8000_0000_0000_0000u64,
        ),
        a matches SkyAngle::MilliArcsec(x) ==> a.negated() == SkyAngle::<u64>::MilliArcsec(
            x ^ 0x8000_0000_0000_0000u64,
        ),
        a.negated().value() != a.value(),
{
    let x = a.value();
    assert(x ^ 0x8000_0000_0000_0000u64 != x) by (bit_vector);
}

/// Negating a binary32 sky angle keeps its unit, whichever it is, and flips
/// exactly the sign bit of its value.
pub proof fn lemma_sky_angle32_negated(a: SkyAngle<u32>)
    ensures
        a matches SkyAngle::Radian(x) ==> a.negated() == SkyAngle::<u32>::Radian(x ^ 0x8000_0000u32),
        a matches SkyAngle::Degree(x) ==> a.negated() == SkyAngle::<u32>::Degree(x ^ 0x8000_0000u32),
        a matches SkyAngle::Arcminute(x) ==> a.negated() == SkyAngle::<u32>::Arcminute(
            x ^ 0x8000_0000u32,
        ),
        a matches SkyAngle::Arcsecond(x) ==> a.negated() == SkyAngle::<u32>::Arcsecond(
            x ^ 0x8000_0000u32,
        ),
        a matches SkyAngle::MilliArcsec(x) ==> a.negated() == SkyAngle::<u32>::MilliArcsec(
            x ^ 0x8000_0000u32,
        ),
        a.negated().value() != a.value(),
{
    let x = a.value();
    assert(x ^ 0x8000_0000u32 != x) by (bit_vector);
}

} // verus!
