//! Configuration model of the GMT field aberration probes: pupil modes,
//! mirror rigid body motions and field pointings.
//!
//! Floating-point quantities are held by their IEEE-754 bit patterns
//! (`u64` for a binary64 value, `u32` for a binary32 value), so that every
//! value is carried through the verified code without any rounding.
use geotrans::SegmentTrait;
use vstd::prelude::*;

pub mod field;
pub mod mirror;
pub mod probe;
pub mod segment;
pub mod zernike;

pub use field::{Field, Pointing};
pub use mirror::Mirror;
pub use segment::rbm::Rbm;

verus! {

/// GMT pupil either full or restrict to segment
#[derive(Debug, Clone, Copy)]
pub enum PupilMode {
    Full,
    Segment {
        /// segment id \[1,7\]
        sid: i32,
        /// segment [Rbm]
        mirror: Mirror,
        /// either remove the collimated (`true`) wavefront or not (`false`)
        zeroed: bool,
    },
}

/// `geotrans::Segment::<M1>::new`: as its source shows, it gives `Ok` for the
/// segment ids 1 to 7 and the error `SegmentId` for any other id; only which
/// of the two came back is handed out.
#[verifier::external_body]
fn gmt_segment_exists(sid: i32) -> (ok: bool)
    ensures
        ok == (1 <= sid && sid <= 7),
{
    geotrans::Segment::<geotrans::M1>::new(sid).is_ok()
}

impl PupilMode {
    /// Whether the pupil names an existing GMT segment: the full pupil
    /// always does, a segment pupil when its id is in \[1,7\].
    pub fn segment_is_valid(&self) -> (ok: bool)
        ensures
            ok == match *self {
                PupilMode::Full => true,
                PupilMode::Segment { sid, .. } => 1 <= sid && sid <= 7,
            },
    {
        match self {
            PupilMode::Full => true,
            PupilMode::Segment { sid, .. } => gmt_segment_exists(*sid),
        }
    }

    /// The pupil of segment `sid` of the primary mirror, unmoved, with the
    /// collimated wavefront removed.
    pub fn m1(sid: i32) -> (p: PupilMode)
        ensures
            p == (PupilMode::Segment { sid, mirror: Mirror::M1(Rbm::zero()), zeroed: true }),
    {
        PupilMode::Segment { sid, mirror: Mirror::M1(Rbm::default()), zeroed: true }
    }

    /// The pupil of segment `sid` of the secondary mirror, unmoved, with the
    /// collimated wavefront removed.
    pub fn m2(sid: i32) -> (p: PupilMode)
        ensures
            p == (PupilMode::Segment { sid, mirror: Mirror::M2(Rbm::zero()), zeroed: true }),
    {
        PupilMode::Segment { sid, mirror: Mirror::M2(Rbm::default()), zeroed: true }
    }

    /// The pupil of segment `sid` moved as `mirror` says, with the collimated
    /// wavefront removed.
    pub fn segment(sid: i32, mirror: Mirror) -> (p: PupilMode)
        ensures
            p == (PupilMode::Segment { sid, mirror, zeroed: true }),
    {
        PupilMode::Segment { sid, mirror, zeroed: true }
    }

    /// The same pupil, with the collimated wavefront kept.
    pub open spec fn spec_non_zeroed(self) -> PupilMode {
        match self {
            PupilMode::Full => PupilMode::Full,
            PupilMode::Segment { sid, mirror, .. } => PupilMode::Segment { sid, mirror, zeroed: false },
        }
    }

    /// The same pupil, with the collimated wavefront kept.
    pub fn non_zeroed(self) -> (p: PupilMode)
        ensures
            p == self.spec_non_zeroed(),
    {
        match self {
            PupilMode::Full => PupilMode::Full,
            PupilMode::Segment { sid, mirror, .. } => PupilMode::Segment { sid, mirror, zeroed: false },
        }
    }
}

/// Keeping the collimated wavefront is idempotent, and it changes neither the
/// kind of pupil nor the segment and its motion.
pub proof fn lemma_non_zeroed_idempotent(p: PupilMode)
    ensures
        p.spec_non_zeroed().spec_non_zeroed() == p.spec_non_zeroed(),
        (p is Full) <==> (p.spec_non_zeroed() is Full),
        p matches PupilMode::Segment { sid, mirror, .. } ==> p.spec_non_zeroed() == (PupilMode::Segment {
            sid,
            mirror,
            zeroed: false,
        }),
{
}

impl Default for PupilMode {
    /// The full pupil.
    fn default() -> (p: PupilMode)
        ensures
            p == PupilMode::Full,
    {
        PupilMode::Full
    }
}

/// Zernike coefficients formatting
#[derive(Debug, Clone, Copy, PartialEq, Eq, Structural)]
pub struct CoefsFormat {
    /// format width
    pub width: usize,
    /// format precision
    pub precision: usize,
}

impl Default for CoefsFormat {
    /// Width 8, precision 0.
    fn default() -> (f: CoefsFormat)
        ensures
            f == (CoefsFormat { width: 8, precision: 0 }),
    {
        CoefsFormat { width: 8, precision: 0 }
    }
}

} // verus!
