//! Field locations: pointing of the telescope and probe configuration.
use vstd::prelude::*;

use crate::segment::units::SkyAngle;
use crate::{CoefsFormat, PupilMode};

verus! {

/// Field position \[zenith,azimuth\]; angles are binary32 values.
#[derive(Debug, Clone, Copy, PartialEq, Eq, Structural)]
pub struct Pointing {
    /// zenith angle
    pub zenith: SkyAngle<u32>,
    /// azimuth angle
    pub azimuth: SkyAngle<u32>,
}

impl Pointing {
    /// Creates an on-axis [Pointing] instance
    pub fn on_axis() -> (p: Pointing)
        ensures
            p == (Pointing { zenith: SkyAngle::Arcsecond(0), azimuth: SkyAngle::Arcsecond(0) }),
    {
        Pointing { zenith: SkyAngle::Arcsecond(0), azimuth: SkyAngle::Arcsecond(0) }
    }

    /// Creates a [Pointing] instance
    pub fn new(zenith: SkyAngle<u32>, azimuth: SkyAngle<u32>) -> (p: Pointing)
        ensures
            p == (Pointing { zenith, azimuth }),
    {
        Pointing { zenith, azimuth }
    }
}

impl Default for Pointing {
    /// On axis.
    fn default() -> (p: Pointing)
        ensures
            p == (Pointing { zenith: SkyAngle::Arcsecond(0), azimuth: SkyAngle::Arcsecond(0) }),
    {
        Pointing::on_axis()
    }
}

impl From<(SkyAngle<u32>, SkyAngle<u32>)> for Pointing {
    /// The pointing (zenith, azimuth).
    fn from(za: (SkyAngle<u32>, SkyAngle<u32>)) -> (p: Pointing)
        ensures
            p == (Pointing { zenith: za.0, azimuth: za.1 }),
    {
        Pointing { zenith: za.0, azimuth: za.1 }
    }
}

impl vstd::std_specs::convert::FromSpecImpl<(SkyAngle<u32>, SkyAngle<u32>)> for Pointing {
    open spec fn obeys_from_spec() -> bool {
        true
    }

    open spec fn from_spec(za: (SkyAngle<u32>, SkyAngle<u32>)) -> Pointing {
        Pointing { zenith: za.0, azimuth: za.1 }
    }
}

/// Field location
#[derive(Debug, Clone, Copy)]
pub struct Field {
    /// pointing angle
    pub pointing: Pointing,
    /// Zernike basis number of radial order
    pub n_radial_order: u32,
    /// exit pupil definition
    pub pupil_mode: PupilMode,
    /// Zernike coefficients formatting
    pub coefs_format: CoefsFormat,
}

/// The default Zernike coefficients formatting.
pub open spec fn default_format() -> CoefsFormat {
    CoefsFormat { width: 8, precision: 0 }
}

/// The default on-axis pointing.
pub open spec fn default_pointing() -> Pointing {
    Pointing { zenith: SkyAngle::Arcsecond(0), azimuth: SkyAngle::Arcsecond(0) }
}

impl Default for Field {
    /// On axis, 5 radial orders, full pupil, default formatting.
    fn default() -> (f: Field)
        ensures
            f == (Field {
                pointing: default_pointing(),
                n_radial_order: 5,
                pupil_mode: PupilMode::Full,
                coefs_format: default_format(),
            }),
    {
        Field {
            pointing: Pointing::default(),
            n_radial_order: 5,
            pupil_mode: PupilMode::default(),
            coefs_format: CoefsFormat::default(),
        }
    }
}

impl Field {
    /// Creates a new field instance
    pub fn new(n_radial_order: u32) -> (f: Field)
        ensures
            f == (Field {
                pointing: default_pointing(),
                n_radial_order,
                pupil_mode: PupilMode::Full,
                coefs_format: default_format(),
            }),
    {
        Field { n_radial_order, ..Field::default() }
    }

    /// The same field pointed at `pointing`.
    pub open spec fn with_pointing(self, pointing: Pointing) -> Field {
        Field { pointing, ..self }
    }

    /// The same field with the pupil `pupil_mode`.
    pub open spec fn with_pupil_mode(self, pupil_mode: PupilMode) -> Field {
        Field { pupil_mode, ..self }
    }

    /// Sets the GMT pointing direction
    pub fn pointing(self, pointing: Pointing) -> (f: Field)
        ensures
            f == self.with_pointing(pointing),
            f.pointing == pointing,
            f.n_radial_order == self.n_radial_order,
            f.pupil_mode == self.pupil_mode,
            f.coefs_format == self.coefs_format,
    {
        Field { pointing, ..self }
    }

    /// Configures the pupil
    pub fn pupil_mode(self, pupil_mode: PupilMode) -> (f: Field)
        ensures
            f == self.with_pupil_mode(pupil_mode),
            f.pupil_mode == pupil_mode,
            f.pointing == self.pointing,
            f.n_radial_order == self.n_radial_order,
            f.coefs_format == self.coefs_format,
    {
        Field { pupil_mode, ..self }
    }

    /// Field pointing direction
    pub fn at(&self) -> (p: &Pointing)
        ensures
            *p == self.pointing,
    {
        &self.pointing
    }
}

/// The two field setters act on separate settings: they commute, the last
/// value set wins, and setting a field's own value changes nothing.
pub proof fn lemma_field_setters(f: Field, p: Pointing, q: Pointing, m: PupilMode, n: PupilMode)
    ensures
        f.with_pointing(p).with_pupil_mode(m) == f.with_pupil_mode(m).with_pointing(p),
        f.with_pointing(p).with_pointing(q) == f.with_pointing(q),
        f.with_pupil_mode(m).with_pupil_mode(n) == f.with_pupil_mode(n),
        f.with_pointing(f.pointing) == f,
        f.with_pupil_mode(f.pupil_mode) == f,
        f.with_pointing(p).pointing == p,
        f.with_pointing(p).pupil_mode == f.pupil_mode,
        f.with_pointing(p).n_radial_order == f.n_radial_order,
        f.with_pointing(p).coefs_format == f.coefs_format,
        f.with_pupil_mode(m).pupil_mode == m,
        f.with_pupil_mode(m).pointing == f.pointing,
        f.with_pupil_mode(m).n_radial_order == f.n_radial_order,
        f.with_pupil_mode(m).coefs_format == f.coefs_format,
{
}

} // verus!
