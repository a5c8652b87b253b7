use gmt_field_aberrations::field::{Field, Pointing};
use gmt_field_aberrations::mirror::Mirror;
use gmt_field_aberrations::probe::probe_fields;
use gmt_field_aberrations::segment::dof::Dof;
use gmt_field_aberrations::segment::rbm::Rbm;
use gmt_field_aberrations::segment::units::{SkyAngle, Txyz};
use gmt_field_aberrations::zernike::{noll_indices, OpdToZernike};
use gmt_field_aberrations::{CoefsFormat, PupilMode};

fn b(x: f64) -> u64 {
    x.to_bits()
}

fn zero_rbm(r: &Rbm) -> bool {
    r.t_xyz == [Txyz::Mu(0); 3] && r.r_xyz == [SkyAngle::Arcsecond(0); 3]
}

#[test]
fn txyz_default_is_zero_micron() {
    assert_eq!(Txyz::default(), Txyz::Mu(0f64.to_bits()));
}

#[test]
fn txyz_into_value_ignores_unit() {
    assert_eq!(Txyz::Mu(b(1.5)).into_value(), b(1.5));
    assert_eq!(Txyz::Nm(b(-2.0)).into_value(), b(-2.0));
}

#[test]
fn txyz_neg_negates_value() {
    assert_eq!(Txyz::Mu(b(1.5)).neg(), Txyz::Mu(b(-1.5)));
    assert_eq!(Txyz::Nm(b(-20.0)).neg(), Txyz::Nm(b(20.0)));
    assert_eq!(Txyz::Mu(b(0.0)).neg(), Txyz::Mu(b(-0.0)));
}

#[test]
fn txyz_neg_twice_is_identity() {
    for t in [Txyz::Mu(b(3.25)), Txyz::Nm(b(-7.0)), Txyz::Mu(b(f64::INFINITY))] {
        assert_eq!(t.neg().neg(), t);
    }
}

#[test]
fn sky_angle_neg_and_value() {
    let a: SkyAngle<u64> = SkyAngle::Degree(b(120.0));
    assert_eq!(a.neg(), SkyAngle::Degree(b(-120.0)));
    assert_eq!(a.neg().neg(), a);
    assert_eq!(a.into_value(), b(120.0));
    let z: SkyAngle<u32> = SkyAngle::Arcminute(6f32.to_bits());
    assert_eq!(z.neg(), SkyAngle::Arcminute((-6f32).to_bits()));
    assert_eq!(z.neg().neg(), z);
    assert_eq!(SkyAngle::<u64>::default(), SkyAngle::Arcsecond(0));
    assert_eq!(SkyAngle::<u32>::default(), SkyAngle::Arcsecond(0));
}

#[test]
fn dof_lists() {
    let one = b(1.0);
    assert_eq!(
        Dof::r_xy(),
        vec![Dof::Rx(SkyAngle::Arcsecond(one)), Dof::Ry(SkyAngle::Arcsecond(one))]
    );
    assert_eq!(
        Dof::into_iter(),
        vec![
            Dof::Tx(Txyz::Mu(one)),
            Dof::Ty(Txyz::Mu(one)),
            Dof::Tz(Txyz::Mu(one)),
            Dof::Rx(SkyAngle::Arcsecond(one)),
            Dof::Ry(SkyAngle::Arcsecond(one)),
        ]
    );
    assert_eq!(Dof::len(), 5);
    assert_eq!(Dof::len(), Dof::into_iter().len());
}

#[test]
fn dof_neg() {
    assert_eq!(Dof::Tz(Txyz::Nm(b(5.0))).neg(), Dof::Tz(Txyz::Nm(b(-5.0))));
    assert_eq!(
        Dof::Ry(SkyAngle::Arcsecond(b(-1.0))).neg(),
        Dof::Ry(SkyAngle::Arcsecond(b(1.0)))
    );
    for d in Dof::into_iter() {
        assert_eq!(d.neg().neg(), d);
        assert_ne!(d.neg(), d);
    }
}

#[test]
fn rbm_default_is_zero() {
    assert!(zero_rbm(&Rbm::default()));
}

#[test]
fn rbm_single_axis() {
    let v = Txyz::Mu(b(20.0));
    let z = Txyz::Mu(0);
    assert_eq!(Rbm::t_x(v).t_xyz, [v, z, z]);
    assert_eq!(Rbm::t_y(v).t_xyz, [z, v, z]);
    assert_eq!(Rbm::t_z(v).t_xyz, [z, z, v]);
    assert_eq!(Rbm::t_z(v).r_xyz, [SkyAngle::Arcsecond(0); 3]);
    let w = SkyAngle::Arcsecond(b(1.0));
    let w0 = SkyAngle::Arcsecond(0);
    assert_eq!(Rbm::r_x(w).r_xyz, [w, w0, w0]);
    assert_eq!(Rbm::r_y(w).r_xyz, [w0, w, w0]);
    assert_eq!(Rbm::r_y(w).t_xyz, [z; 3]);
}

#[test]
fn rbm_from_dof() {
    let v = Txyz::Nm(b(-3.0));
    let w = SkyAngle::MilliArcsec(b(4.0));
    let z = Txyz::Mu(0);
    let w0 = SkyAngle::Arcsecond(0);
    assert_eq!(Rbm::from(Dof::Tx(v)).t_xyz, [v, z, z]);
    assert_eq!(Rbm::from(Dof::Ty(v)).t_xyz, [z, v, z]);
    assert_eq!(Rbm::from(Dof::Tz(v)).t_xyz, [z, z, v]);
    assert_eq!(Rbm::from(Dof::Rx(w)).r_xyz, [w, w0, w0]);
    assert_eq!(Rbm::from(Dof::Ry(w)).r_xyz, [w0, w, w0]);
    assert_eq!(Rbm::from(Dof::Ry(w)).t_xyz, [z; 3]);
}

#[test]
fn mirror_constructors() {
    let r = Rbm::t_y(Txyz::Mu(b(20.0)));
    match Mirror::m1(r) {
        Mirror::M1(x) => assert_eq!(x.t_xyz, r.t_xyz),
        Mirror::M2(_) => panic!("expected M1"),
    }
    match Mirror::m2(r) {
        Mirror::M2(x) => assert_eq!(x.t_xyz, r.t_xyz),
        Mirror::M1(_) => panic!("expected M2"),
    }
}

#[test]
fn pupil_mode_m1_m2() {
    match PupilMode::m1(1) {
        PupilMode::Segment { sid, mirror: Mirror::M1(r), zeroed } => {
            assert_eq!(sid, 1);
            assert!(zeroed);
            assert!(zero_rbm(&r));
        }
        _ => panic!("expected an M1 segment"),
    }
    match PupilMode::m2(7) {
        PupilMode::Segment { sid, mirror: Mirror::M2(r), zeroed } => {
            assert_eq!(sid, 7);
            assert!(zeroed);
            assert!(zero_rbm(&r));
        }
        _ => panic!("expected an M2 segment"),
    }
}

#[test]
fn pupil_mode_segment_and_non_zeroed() {
    let rbm = Rbm::r_x(SkyAngle::Arcsecond(b(1.0)));
    let p = PupilMode::segment(3, Mirror::m2(rbm));
    match p {
        PupilMode::Segment { sid, mirror: Mirror::M2(r), zeroed } => {
            assert_eq!(sid, 3);
            assert!(zeroed);
            assert_eq!(r.r_xyz, rbm.r_xyz);
        }
        _ => panic!("expected an M2 segment"),
    }
    match p.non_zeroed() {
        PupilMode::Segment { sid, zeroed, .. } => {
            assert_eq!(sid, 3);
            assert!(!zeroed);
        }
        _ => panic!("expected a segment"),
    }
    match p.non_zeroed().non_zeroed() {
        PupilMode::Segment { zeroed, .. } => assert!(!zeroed),
        _ => panic!("expected a segment"),
    }
    assert!(matches!(PupilMode::Full.non_zeroed(), PupilMode::Full));
    assert!(matches!(PupilMode::default(), PupilMode::Full));
}

#[test]
fn coefs_format_default() {
    assert_eq!(CoefsFormat::default(), CoefsFormat { width: 8, precision: 0 });
}

#[test]
fn opd_to_zernike_variants() {
    assert_ne!(OpdToZernike::Projection, OpdToZernike::LeastSquareFit);
}

#[test]
fn pointing_constructors() {
    let on = Pointing::on_axis();
    assert_eq!(on.zenith, SkyAngle::Arcsecond(0));
    assert_eq!(on.azimuth, SkyAngle::Arcsecond(0));
    assert_eq!(Pointing::default(), on);
    let z = SkyAngle::Arcminute(6f32.to_bits());
    let a = SkyAngle::Degree(120f32.to_bits());
    assert_eq!(Pointing::new(z, a), Pointing { zenith: z, azimuth: a });
    assert_eq!(Pointing::from((z, a)), Pointing::new(z, a));
}

#[test]
fn field_default_and_new() {
    let f = Field::default();
    assert_eq!(f.n_radial_order, 5);
    assert_eq!(f.pointing, Pointing::on_axis());
    assert!(matches!(f.pupil_mode, PupilMode::Full));
    assert_eq!(f.coefs_format, CoefsFormat::default());
    let g = Field::new(4);
    assert_eq!(g.n_radial_order, 4);
    assert_eq!(*g.at(), Pointing::on_axis());
}

#[test]
fn field_setters() {
    let p = Pointing::new(SkyAngle::Arcminute(3f32.to_bits()), SkyAngle::Degree(0));
    let q = Pointing::new(SkyAngle::Arcminute(9f32.to_bits()), SkyAngle::Degree(0));
    let f = Field::new(5).pointing(p).pupil_mode(PupilMode::m1(1));
    let g = Field::new(5).pupil_mode(PupilMode::m1(1)).pointing(p);
    assert_eq!(*f.at(), *g.at());
    assert!(matches!(f.pupil_mode, PupilMode::Segment { sid: 1, .. }));
    assert!(matches!(g.pupil_mode, PupilMode::Segment { sid: 1, .. }));
    assert_eq!(*f.pointing(q).at(), q);
    assert_eq!(f.pointing(q).n_radial_order, 5);
}

#[test]
fn probe_fields_one_per_angle() {
    let angles = vec![
        Pointing::new(SkyAngle::Arcminute(6f32.to_bits()), SkyAngle::Degree(0f32.to_bits())),
        Pointing::new(SkyAngle::Arcminute(6f32.to_bits()), SkyAngle::Degree(120f32.to_bits())),
        Pointing::new(SkyAngle::Arcminute(6f32.to_bits()), SkyAngle::Degree(240f32.to_bits())),
    ];
    let fields = probe_fields(&angles, 4, PupilMode::m2(7).non_zeroed());
    assert_eq!(fields.len(), 3);
    for (f, a) in fields.iter().zip(angles.iter()) {
        assert_eq!(f.at(), a);
        assert_eq!(f.n_radial_order, 4);
        assert_eq!(f.coefs_format, CoefsFormat::default());
        assert!(matches!(
            f.pupil_mode,
            PupilMode::Segment { sid: 7, mirror: Mirror::M2(_), zeroed: false }
        ));
    }
    assert!(probe_fields(&vec![], 4, PupilMode::Full).is_empty());
}

#[test]
fn noll_indices_first_orders() {
    assert!(noll_indices(0).is_empty());
    assert_eq!(noll_indices(1), vec![(1, 0, 0)]);
    assert_eq!(
        noll_indices(3),
        vec![(1, 0, 0), (2, 1, 1), (3, 1, 1), (4, 2, 0), (5, 2, 2), (6, 2, 2)]
    );
}

#[test]
fn noll_indices_match_noll_table() {
    // j, n and m of the first 21 modes in Noll ordering
    let n = [0, 1, 1, 2, 2, 2, 3, 3, 3, 3, 4, 4, 4, 4, 4, 5, 5, 5, 5, 5, 5];
    let m = [0, 1, 1, 0, 2, 2, 1, 1, 3, 3, 0, 2, 2, 4, 4, 1, 1, 3, 3, 5, 5];
    let modes = noll_indices(6);
    assert_eq!(modes.len(), 21);
    for (i, &(jj, nn, mm)) in modes.iter().enumerate() {
        assert_eq!(jj as usize, i + 1);
        assert_eq!(nn, n[i]);
        assert_eq!(mm, m[i]);
    }
}

#[test]
fn noll_indices_count() {
    for k in 0u32..12 {
        assert_eq!(noll_indices(k).len() as u32, k * (k + 1) / 2);
    }
    // the default field has 5 radial orders, hence 15 modes
    assert_eq!(noll_indices(Field::default().n_radial_order).len(), 15);
}

#[test]
fn noll_indices_are_zernike_modes() {
    let modes = noll_indices(9);
    for w in modes.windows(2) {
        assert!(w[0].1 <= w[1].1);
    }
    for &(_, n, m) in &modes {
        assert!(m <= n);
        assert_eq!((n - m) % 2, 0);
        assert!(n < 9);
    }
}

#[test]
fn segment_ids_one_to_seven_exist() {
    assert!(PupilMode::Full.segment_is_valid());
    for sid in 1..=7 {
        assert!(PupilMode::m1(sid).segment_is_valid());
        assert!(PupilMode::m2(sid).non_zeroed().segment_is_valid());
    }
    for sid in [i32::MIN, -1, 0, 8, 100, i32::MAX] {
        assert!(!PupilMode::m1(sid).segment_is_valid());
    }
}
