//! Zernike modes: Noll indices of the modal basis, and how the wavefront is
//! decomposed onto it.
use vstd::prelude::*;

verus! {

/// How the wavefront is decomposed onto the Zernike modes.
#[derive(Debug, Clone, Copy, PartialEq, Eq, Structural)]
pub enum OpdToZernike {
    /// Projection onto the (orthonormal) modes
    Projection,
    /// Least square fit of the modes
    LeastSquareFit,
}

/// The (radial, azimuthal) orders of the modes of radial order `n` whose
/// azimuthal order is at least `n % 2 + k`, for an even `k`: each azimuthal
/// order `m` of the same parity as `n` and at most `n` gives two modes (cosine
/// and sine), except `m == 0` which gives one.
pub open spec fn order_modes_from(n: nat, k: nat) -> Seq<(nat, nat)>
    decreases n + 2 - k,
{
    if k > n {
        seq![]
    } else {
        let m = n % 2 + k;
        let here = if k == 0 && n % 2 == 0 {
            seq![(n, 0nat)]
        } else {
            seq![(n, m), (n, m)]
        };
        here + order_modes_from(n, k + 2)
    }
}

/// The (radial, azimuthal) orders of the modes of radial order `n`.
pub open spec fn order_modes(n: nat) -> Seq<(nat, nat)> {
    order_modes_from(n, 0)
}

/// The (radial, azimuthal) orders of the modes of the first `n_radial_order`
/// radial orders, in Noll order.
pub open spec fn noll_modes(n_radial_order: nat) -> Seq<(nat, nat)>
    decreases n_radial_order,
{
    if n_radial_order == 0 {
        seq![]
    } else {
        noll_modes((n_radial_order - 1) as nat) + order_modes((n_radial_order - 1) as nat)
    }
}

/// The number of modes of the first `n_radial_order` radial orders.
pub open spec fn mode_count(n_radial_order: nat) -> nat {
    n_radial_order * (n_radial_order + 1) / 2
}

/// Three sequences hold the Noll indices `j` (from 1 on), the radial orders
/// and the azimuthal orders of the modes of the first `n_radial_order`
/// radial orders.
pub open spec fn is_noll_table(n_radial_order: nat, j: Seq<u32>, n: Seq<u32>, m: Seq<u32>) -> bool {
    let modes = noll_modes(n_radial_order);
    &&& j.len() == modes.len()
    &&& n.len() == modes.len()
    &&& m.len() == modes.len()
    &&& forall|i: int|
        0 <= i < modes.len() ==> {
            &&& #[trigger] j[i] == i + 1
            &&& n[i] == modes[i].0
            &&& m[i] == modes[i].1
        }
}

proof fn lemma_order_modes_from_len(n: nat, k: nat)
    requires
        k % 2 == 0,
    ensures
        order_modes_from(n, k).len() == if k > n {
            0int
        } else if k == 0 {
            n + 1int
        } else if n % 2 == 0 {
            n + 2 - k
        } else {
            n + 1 - k
        },
    decreases n + 2 - k,
{
    if k <= n {
        lemma_order_modes_from_len(n, k + 2);
    }
}

/// Radial order `n` has `n + 1` modes.
pub proof fn lemma_order_modes_len(n: nat)
    ensures
        order_modes(n).len() == n + 1,
{
    lemma_order_modes_from_len(n, 0);
}

/// The first `n_radial_order` radial orders have
/// `n_radial_order * (n_radial_order + 1) / 2` modes.
pub proof fn lemma_noll_modes_len(n_radial_order: nat)
    ensures
        noll_modes(n_radial_order).len() == mode_count(n_radial_order),
    decreases n_radial_order,
{
    if n_radial_order > 0 {
        let p = (n_radial_order - 1) as nat;
        lemma_noll_modes_len(p);
        lemma_order_modes_len(p);
        assert(noll_modes(n_radial_order) == noll_modes(p) + order_modes(p));
        assert(noll_modes(n_radial_order).len() == mode_count(p) + p + 1);
        assert(p * (p + 1) / 2 + p + 1 == n_radial_order * (n_radial_order + 1) / 2) by (nonlinear_arith)
            requires
                n_radial_order == p + 1,
        ;
    } else {
        assert(n_radial_order * (n_radial_order + 1) / 2 == 0) by (nonlinear_arith)
            requires
                n_radial_order == 0,
        ;
    }
}

/// A Zernike mode of radial order `n` and azimuthal order `m` exists when
/// `m <= n` and `n - m` is even.
pub open spec fn is_zernike_mode(nm: (nat, nat)) -> bool {
    nm.1 <= nm.0 && (nm.0 - nm.1) % 2 == 0
}

proof fn lemma_order_modes_from_valid(n: nat, k: nat)
    requires
        k % 2 == 0,
    ensures
        forall|i: int|
            0 <= i < order_modes_from(n, k).len() ==> {
                &&& is_zernike_mode(#[trigger] order_modes_from(n, k)[i])
                &&& order_modes_from(n, k)[i].0 == n
            },
    decreases n + 2 - k,
{
    if k <= n {
        lemma_order_modes_from_valid(n, k + 2);
        let m = n % 2 + k;
        assert(m <= n);
        assert((n - m) % 2 == 0);
        let here = if k == 0 && n % 2 == 0 {
            seq![(n, 0nat)]
        } else {
            seq![(n, m), (n, m)]
        };
        let rest = order_modes_from(n, k + 2);
        assert(order_modes_from(n, k) == here + rest);
        assert forall|i: int| 0 <= i < (here + rest).len() implies {
            &&& is_zernike_mode(#[trigger] (here + rest)[i])
            &&& (here + rest)[i].0 == n
        } by {
            if i >= here.len() {
                assert((here + rest)[i] == rest[i - here.len()]);
            } else {
                assert((here + rest)[i] == here[i]);
            }
        }
    }
}

/// Every mode of the first `n_radial_order` radial orders is a Zernike mode
/// of radial order less than `n_radial_order`, and the radial orders never
/// decrease along the Noll order.
pub proof fn lemma_noll_modes_valid(n_radial_order: nat)
    ensures
        forall|i: int|
            0 <= i < noll_modes(n_radial_order).len() ==> {
                &&& is_zernike_mode(#[trigger] noll_modes(n_radial_order)[i])
                &&& noll_modes(n_radial_order)[i].0 < n_radial_order
            },
        forall|i: int, l: int|
            0 <= i <= l < noll_modes(n_radial_order).len() ==> #[trigger] noll_modes(n_radial_order)[i].0
                <= #[trigger] noll_modes(n_radial_order)[l].0,
    decreases n_radial_order,
{
    if n_radial_order > 0 {
        let p = (n_radial_order - 1) as nat;
        lemma_noll_modes_valid(p);
        lemma_order_modes_from_valid(p, 0);
        let a = noll_modes(p);
        let b = order_modes(p);
        assert(noll_modes(n_radial_order) == a + b);
        assert forall|i: int|
            0 <= i < (a + b).len() implies {
                &&& is_zernike_mode(#[trigger] (a + b)[i])
                &&& (a + b)[i].0 < n_radial_order
            } by {
            if i >= a.len() {
                assert((a + b)[i] == b[i - a.len()]);
            }
        }
        assert forall|i: int, l: int| 0 <= i <= l < (a + b).len() implies #[trigger] (a + b)[i].0
            <= #[trigger] (a + b)[l].0 by {
            if i >= a.len() {
                assert((a + b)[i] == b[i - a.len()]);
                assert((a + b)[l] == b[l - a.len()]);
            } else if l >= a.len() {
                assert((a + b)[i] == a[i]);
                assert((a + b)[l] == b[l - a.len()]);
            }
        }
    }
}

/// The index, in Noll order, of the mode at offset `t` within radial order
/// `n`: the orders before `n` hold `n * (n + 1) / 2` modes.
pub open spec fn noll_position(n: nat, t: nat) -> int {
    (n * (n + 1) / 2 + t) as int
}

proof fn lemma_order_modes_from_closed_form(n: nat, k: nat)
    requires
        k % 2 == 0,
    ensures
        forall|t: int|
            0 <= t < order_modes_from(n, k).len() ==> {
                let u = t + if k == 0 {
                    0int
                } else if n % 2 == 0 {
                    k - 1
                } else {
                    k as int
                };
                #[trigger] order_modes_from(n, k)[t] == (n, (if n % 2 == 0 {
                    2 * ((u + 1) / 2)
                } else {
                    2 * (u / 2) + 1
                }) as nat)
            },
    decreases n + 2 - k,
{
    if k <= n {
        lemma_order_modes_from_closed_form(n, k + 2);
        let m = n % 2 + k;
        let here = if k == 0 && n % 2 == 0 {
            seq![(n, 0nat)]
        } else {
            seq![(n, m), (n, m)]
        };
        let rest = order_modes_from(n, k + 2);
        assert(order_modes_from(n, k) == here + rest);
        assert forall|t: int| 0 <= t < (here + rest).len() implies {
            let u = t + if k == 0 {
                0int
            } else if n % 2 == 0 {
                k - 1
            } else {
                k as int
            };
            #[trigger] (here + rest)[t] == (n, (if n % 2 == 0 {
                2 * ((u + 1) / 2)
            } else {
                2 * (u / 2) + 1
            }) as nat)
        } by {
            if t >= here.len() {
                assert((here + rest)[t] == rest[t - here.len()]);
            } else {
                assert((here + rest)[t] == here[t]);
            }
        }
    }
}

proof fn lemma_mode_count_step(n: nat)
    ensures
        mode_count(n) + n + 1 == mode_count(n + 1),
{
    assert(n * (n + 1) / 2 + n + 1 == (n + 1) * (n + 2) / 2) by (nonlinear_arith);
}

proof fn lemma_mode_count_monotonic(a: nat, b: nat)
    requires
        a <= b,
    ensures
        mode_count(a) <= mode_count(b),
    decreases b - a,
{
    if a < b {
        lemma_mode_count_monotonic(a, (b - 1) as nat);
        lemma_mode_count_step((b - 1) as nat);
    }
}

/// The Noll table in closed form: within radial order `n`, the mode at offset
/// `t` (for `t <= n`) has azimuthal order `2 * ((t + 1) / 2)` when `n` is even
/// (0, 2, 2, 4, 4, ...) and `2 * (t / 2) + 1` when `n` is odd (1, 1, 3, 3, ...),
/// so every azimuthal order `m` of the parity of `n` up to `n` comes twice,
/// in increasing order, but for `m == 0`, which comes once.
pub proof fn lemma_noll_modes_closed_form(n_radial_order: nat, n: nat, t: nat)
    requires
        n < n_radial_order,
        t <= n,
    ensures
        noll_modes(n_radial_order)[noll_position(n, t)] == (n, (if n % 2 == 0 {
            2 * ((t + 1) / 2)
        } else {
            2 * (t / 2) + 1
        }) as nat),
    decreases n_radial_order,
{
    let p = (n_radial_order - 1) as nat;
    let a = noll_modes(p);
    let b = order_modes(p);
    assert(noll_modes(n_radial_order) == a + b);
    lemma_noll_modes_len(p);
    lemma_mode_count_step(n);
    if n == p {
        lemma_order_modes_len(n);
        lemma_order_modes_from_closed_form(n, 0);
        assert((a + b)[noll_position(n, t)] == b[t as int]);
    } else {
        lemma_noll_modes_closed_form(p, n, t);
        lemma_mode_count_monotonic(n + 1, p);
        assert((a + b)[noll_position(n, t)] == a[noll_position(n, t)]);
    }
}

/// `zernike::jnm`: the Noll indices `j`, radial orders `n` and azimuthal
/// orders `m` of the Zernike modes of the first `n_radial_order` radial
/// orders. As its source shows, for each radial order `n` it lists the
/// azimuthal orders `n % 2, n % 2 + 2, ..., n`, twice each but for `0`, and
/// numbers the modes 1, 2, 3, ... The bound keeps the last index in `u32`.
#[verifier::external_body]
fn zernike_jnm(n_radial_order: u32) -> (jnm: (Vec<u32>, Vec<u32>, Vec<u32>))
    requires
        mode_count(n_radial_order as nat) <= u32::MAX,
    ensures
        is_noll_table(n_radial_order as nat, jnm.0@, jnm.1@, jnm.2@),
{
    zernike::jnm(n_radial_order)
}

/// The Noll indices `(j, n, m)` of the Zernike modes of the first
/// `n_radial_order` radial orders, from which the modal basis is built: there
/// are `n_radial_order * (n_radial_order + 1) / 2` of them.
pub fn noll_indices(n_radial_order: u32) -> (modes: Vec<(u32, u32, u32)>)
    requires
        mode_count(n_radial_order as nat) <= u32::MAX,
    ensures
        modes@.len() == mode_count(n_radial_order as nat),
        forall|i: int|
            0 <= i < modes@.len() ==> #[trigger] modes@[i] == (
                (i + 1) as u32,
                noll_modes(n_radial_order as nat)[i].0 as u32,
                noll_modes(n_radial_order as nat)[i].1 as u32,
            ),
        forall|n: nat, t: nat|
            n < n_radial_order && t <= n ==> modes@[#[trigger] noll_position(n, t)] == (
                (noll_position(n, t) + 1) as u32,
                n as u32,
                (if n % 2 == 0 {
                    2 * ((t + 1) / 2)
                } else {
                    2 * (t / 2) + 1
                }) as u32,
            ),
{
    proof {
        lemma_noll_modes_len(n_radial_order as nat);
    }
    let (j, n, m) = zernike_jnm(n_radial_order);
    let ghost table = noll_modes(n_radial_order as nat);
    let count = j.len();
    let mut modes: Vec<(u32, u32, u32)> = Vec::new();
    for i in 0..count
        invariant
            count == j@.len(),
            is_noll_table(n_radial_order as nat, j@, n@, m@),
            table == noll_modes(n_radial_order as nat),
            modes@.len() == i,
            forall|k: int|
                0 <= k < i ==> #[trigger] modes@[k] == (
                    (k + 1) as u32,
                    table[k].0 as u32,
                    table[k].1 as u32,
                ),
    {
        assert(j@[i as int] == i + 1);
        modes.push((j[i], n[i], m[i]));
    }
    proof {
        assert forall|nn: nat, t: nat| nn < n_radial_order && t <= nn implies modes@[#[trigger] noll_position(nn, t)] == (
            (noll_position(nn, t) + 1) as u32,
            nn as u32,
            (if nn % 2 == 0 {
                2 * ((t + 1) / 2)
            } else {
                2 * (t / 2) + 1
            }) as u32,
        ) by {
            lemma_noll_modes_closed_form(n_radial_order as nat, nn, t);
            lemma_mode_count_step(nn);
            lemma_mode_count_monotonic(nn + 1, n_radial_order as nat);
        }
    }
    modes
}

} // verus!
