//! Probes of the field of view.
use vstd::prelude::*;

use crate::field::{default_format, Field, Pointing};
use crate::{CoefsFormat, PupilMode};

verus! {

/// The field of one probe: pointing `p`, `n_radial_order` radial orders,
/// pupil `pupil_mode`, default formatting.
pub open spec fn probe_field(p: Pointing, n_radial_order: u32, pupil_mode: PupilMode) -> Field {
    Field { pointing: p, n_radial_order, pupil_mode, coefs_format: default_format() }
}

/// The fields probed at each of `field_angles`, in the same order, all with
/// `n_radial_order` radial orders and the pupil `pupil_mode`.
pub fn probe_fields(field_angles: &Vec<Pointing>, n_radial_order: u32, pupil_mode: PupilMode) -> (fields: Vec<Field>)
    ensures
        fields@.len() == field_angles@.len(),
        forall|i: int|
            0 <= i < fields@.len() ==> #[trigger] fields@[i] == probe_field(
                field_angles@[i],
                n_radial_order,
                pupil_mode,
            ),
        forall|i: int|
            0 <= i < fields@.len() ==> {
                &&& (#[trigger] fields@[i]).pointing == field_angles@[i]
                &&& fields@[i].n_radial_order == n_radial_order
                &&& fields@[i].pupil_mode == pupil_mode
                &&& fields@[i].coefs_format == (CoefsFormat { width: 8, precision: 0 })
            },
{
    let mut fields: Vec<Field> = Vec::new();
    let n = field_angles.len();
    for i in 0..n
        invariant
            n == field_angles@.len(),
            fields@.len() == i,
            forall|j: int|
                0 <= j < i ==> #[trigger] fields@[j] == probe_field(
                    field_angles@[j],
                    n_radial_order,
                    pupil_mode,
                ),
    {
        let field = Field::new(n_radial_order).pointing(field_angles[i]).pupil_mode(pupil_mode);
        fields.push(field);
    }
    fields
}

/// A probe field is pointed at its angle and keeps the radial orders, the
/// pupil (its segment, motion and `zeroed` flag included) and the default
/// formatting it was given.
pub proof fn lemma_probe_field(p: Pointing, n_radial_order: u32, pupil_mode: PupilMode)
    ensures
        probe_field(p, n_radial_order, pupil_mode).pointing == p,
        probe_field(p, n_radial_order, pupil_mode).n_radial_order == n_radial_order,
        probe_field(p, n_radial_order, pupil_mode).pupil_mode == pupil_mode,
        probe_field(p, n_radial_order, pupil_mode).coefs_format == (CoefsFormat {
            width: 8,
            precision: 0,
        }),
{
}

} // verus!
