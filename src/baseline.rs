use vstd::prelude::*;

use std::collections::HashSet;
use vstd::arithmetic::div_mod::lemma_fundamental_div_mod_converse;

verus! {

/// Offset that marks a baseline number of the 2048 encoding.
pub const BASELINE_OFFSET: u32 = 65536;

/// Whether a pair of antennas is packed with the base-256 encoding: when it
/// is asked for and both numbers fit that legacy range.
pub open spec fn uses_256(a1: u32, a2: u32, attempt256: bool) -> bool {
    attempt256 && a1 < 255 && a2 < 255
}

/// The baseline number of an antenna pair.
pub open spec fn baseline_of(a1: u32, a2: u32, attempt256: bool) -> int {
    if uses_256(a1, a2, attempt256) {
        256 * (a1 + 1) + (a2 + 1)
    } else {
        2048 * (a1 + 1) + (a2 + 1) + 65536
    }
}

pub open spec fn modulus(use256: bool) -> int {
    if use256 {
        256
    } else {
        2048
    }
}

/// A baseline number with the encoding's offset removed.
pub open spec fn unshifted(bl: u32, use256: bool) -> int {
    if use256 {
        bl as int
    } else {
        bl - 65536
    }
}

/// The second antenna of a baseline number.
pub open spec fn ant2_of(bl: u32, use256: bool) -> int {
    unshifted(bl, use256) % modulus(use256) - 1
}

/// The first antenna of a baseline number.
pub open spec fn ant1_of(bl: u32, use256: bool) -> int {
    unshifted(bl, use256) / modulus(use256) - 1
}

/// A baseline number that unpacks into two antenna numbers.
pub open spec fn is_decodable(bl: u32, use256: bool) -> bool {
    &&& unshifted(bl, use256) >= 0
    &&& unshifted(bl, use256) % modulus(use256) >= 1
    &&& unshifted(bl, use256) / modulus(use256) >= 1
}

/// Packs antenna pairs into baseline numbers: base 256 where `attempt256`
/// is set and both numbers are below 255, else base 2048 with an offset of 2^16.
pub fn antnums_to_baseline(ant1: &Vec<u32>, ant2: &Vec<u32>, attempt256: bool) -> (r: Vec<u32>)
    requires
        ant1.len() == ant2.len(),
        forall|i: int| 0 <= i < ant1.len() ==> baseline_of(#[trigger] ant1[i], ant2[i], attempt256) <= u32::MAX,
    ensures
        r.len() == ant1.len(),
        forall|i: int| 0 <= i < r.len() ==> r[i] == baseline_of(#[trigger] ant1[i], ant2[i], attempt256),
{
    let mut r: Vec<u32> = Vec::with_capacity(ant1.len());
    let mut i: usize = 0;
    while i < ant1.len()
        invariant
            i <= ant1.len(),
            ant1.len() == ant2.len(),
            r.len() == i,
            forall|j: int| 0 <= j < ant1.len() ==> baseline_of(#[trigger] ant1[j], ant2[j], attempt256) <= u32::MAX,
            forall|j: int| 0 <= j < i ==> r[j] == baseline_of(#[trigger] ant1[j], ant2[j], attempt256),
        decreases ant1.len() - i,
    {
        let a1 = ant1[i];
        let a2 = ant2[i];
        assert(baseline_of(ant1[i as int], ant2[i as int], attempt256) <= u32::MAX);
        let bl: u32 = if attempt256 && a1 < 255 && a2 < 255 {
            256 * (a1 + 1) + (a2 + 1)
        } else {
            2048 * (a1 + 1) + (a2 + 1) + BASELINE_OFFSET
        };
        r.push(bl);
        i = i + 1;
    }
    r
}

/// Unpacks baseline numbers into the two antenna numbers of each.
pub fn baseline_to_antnums(baselines: &Vec<u32>, use256: bool) -> (r: (Vec<u32>, Vec<u32>))
    requires
        forall|i: int| 0 <= i < baselines.len() ==> is_decodable(#[trigger] baselines[i], use256),
    ensures
        r.0.len() == baselines.len(),
        r.1.len() == baselines.len(),
        forall|i: int| 0 <= i < baselines.len() ==> r.0[i] == ant1_of(#[trigger] baselines[i], use256),
        forall|i: int| 0 <= i < baselines.len() ==> r.1[i] == ant2_of(#[trigger] baselines[i], use256),
{
    let m: u32 = if use256 { 256 } else { 2048 };
    let mut ant1: Vec<u32> = Vec::with_capacity(baselines.len());
    let mut ant2: Vec<u32> = Vec::with_capacity(baselines.len());
    let mut i: usize = 0;
    while i < baselines.len()
        invariant
            i <= baselines.len(),
            m == modulus(use256),
            ant1.len() == i,
            ant2.len() == i,
            forall|j: int| 0 <= j < baselines.len() ==> is_decodable(#[trigger] baselines[j], use256),
            forall|j: int| 0 <= j < i ==> ant1[j] == ant1_of(#[trigger] baselines[j], use256),
            forall|j: int| 0 <= j < i ==> ant2[j] == ant2_of(#[trigger] baselines[j], use256),
        decreases baselines.len() - i,
    {
        let bl = baselines[i];
        assert(is_decodable(baselines[i as int], use256));
        let x: u32 = if use256 { bl } else { bl - BASELINE_OFFSET };
        let a2: u32 = x % m - 1;
        assert(x / m <= x) by (nonlinear_arith)
            requires m >= 256,
        ;
        let a1: u32 = x / m - 1;
        ant1.push(a1);
        ant2.push(a2);
        i = i + 1;
    }
    (ant1, ant2)
}

proof fn lemma_unpack_pair(a1: u32, a2: u32, attempt256: bool)
    requires
        baseline_of(a1, a2, attempt256) <= u32::MAX,
        attempt256 ==> a1 < 255 && a2 < 255,
        !attempt256 ==> a2 < 2047,
    ensures
        is_decodable(baseline_of(a1, a2, attempt256) as u32, attempt256),
        ant1_of(baseline_of(a1, a2, attempt256) as u32, attempt256) == a1,
        ant2_of(baseline_of(a1, a2, attempt256) as u32, attempt256) == a2,
{
    let bl = baseline_of(a1, a2, attempt256) as u32;
    let m = modulus(attempt256);
    let x = unshifted(bl, attempt256);
    assert(x == (a1 + 1) * m + (a2 + 1));
    lemma_fundamental_div_mod_converse(x, m, a1 + 1, a2 + 1);
    vstd::arithmetic::div_mod::lemma_fundamental_div_mod_converse_div(x, m, a1 + 1, a2 + 1);
}

/// Unpacking the baseline numbers of antenna pairs gives back the pairs, for
/// numbers within the range of the chosen encoding: below 255 for base 256;
/// for base 2048 a second antenna below 2047 and a baseline number that fits.
pub proof fn lemma_baseline_round_trip(ant1: Seq<u32>, ant2: Seq<u32>, attempt256: bool)
    requires
        ant1.len() == ant2.len(),
        forall|i: int| 0 <= i < ant1.len() ==> baseline_of(#[trigger] ant1[i], ant2[i], attempt256) <= u32::MAX,
        attempt256 ==> forall|i: int| 0 <= i < ant1.len() ==> #[trigger] ant1[i] < 255 && ant2[i] < 255,
        !attempt256 ==> forall|i: int| 0 <= i < ant1.len() ==> #[trigger] ant2[i] < 2047,
    ensures
        forall|i: int| 0 <= i < ant1.len() ==> is_decodable(baseline_of(#[trigger] ant1[i], ant2[i], attempt256) as u32, attempt256),
        forall|i: int| 0 <= i < ant1.len() ==> ant1_of(baseline_of(#[trigger] ant1[i], ant2[i], attempt256) as u32, attempt256) == ant1[i],
        forall|i: int| 0 <= i < ant1.len() ==> ant2_of(baseline_of(#[trigger] ant1[i], ant2[i], attempt256) as u32, attempt256) == ant2[i],
{
    assert forall|i: int| 0 <= i < ant1.len() implies {
        &&& is_decodable(baseline_of(#[trigger] ant1[i], ant2[i], attempt256) as u32, attempt256)
        &&& ant1_of(baseline_of(ant1[i], ant2[i], attempt256) as u32, attempt256) == ant1[i]
        &&& ant2_of(baseline_of(ant1[i], ant2[i], attempt256) as u32, attempt256) == ant2[i]
    } by {
        lemma_unpack_pair(ant1[i], ant2[i], attempt256);
    }
}

/// The number of distinct values among the baseline numbers.
pub fn count_distinct(v: &Vec<u32>) -> (r: usize)
    ensures
        r == v@.to_set().len(),
{
    broadcast use vstd::std_specs::hash::group_hash_axioms;
    let mut seen: HashSet<u32> = HashSet::new();
    let mut i: usize = 0;
    while i < v.len()
        invariant
            i <= v.len(),
            seen@ == v@.subrange(0, i as int).to_set(),
        decreases v.len() - i,
    {
        let x = v[i];
        seen.insert(x);
        proof {
            let a = v@.subrange(0, i as int);
            let b = v@.subrange(0, i + 1);
            assert forall|y: u32| b.to_set().contains(y) <==> a.to_set().insert(x).contains(y) by {
                if b.contains(y) {
                    let k = choose|k: int| 0 <= k < b.len() && b[k] == y;
                    if k < i {
                        assert(a[k] == y);
                    }
                }
                if a.contains(y) {
                    let k = choose|k: int| 0 <= k < a.len() && a[k] == y;
                    assert(b[k] == y);
                }
                if y == x {
                    assert(b[i as int] == y);
                }
            }
            assert(b.to_set() =~= a.to_set().insert(x));
        }
        i = i + 1;
    }
    assert(v@.subrange(0, v.len() as int) =~= v@);
    seen.len()
}

} // verus!
