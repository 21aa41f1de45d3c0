use vstd::prelude::*;

use crate::model::DoubleBits;
use crate::text::{decimal, decimal_of, digit_char, join3};

verus! {

/// A phase center that is not phased: the zenith.
#[derive(Debug, Clone, PartialEq, Eq)]
pub struct UnphasedVal {
    pub cat_id: u32,
    pub cat_type: String,
}

/// A phase center fixed on the sky.
#[derive(Debug, Clone, PartialEq, Eq)]
pub struct SiderealVal {
    pub cat_id: u32,
    pub cat_type: String,
    pub cat_lon: DoubleBits,
    pub cat_lat: DoubleBits,
    pub cat_frame: String,
    pub cat_epoch: DoubleBits,
    pub cat_pm_ra: Option<DoubleBits>,
    pub cat_pm_dec: Option<DoubleBits>,
    pub cat_dist: Option<DoubleBits>,
    pub cat_vrad: Option<DoubleBits>,
    pub info_source: Option<String>,
}

/// A phase center that moves: one position per listed time.
#[derive(Debug, Clone, PartialEq, Eq)]
pub struct EphemVal {
    pub cat_id: u32,
    pub cat_type: String,
    pub cat_lon: Vec<DoubleBits>,
    pub cat_lat: Vec<DoubleBits>,
    pub cat_frame: String,
    pub cat_epoch: DoubleBits,
    pub cat_dist: Option<Vec<DoubleBits>>,
    pub cat_vrad: Option<Vec<DoubleBits>>,
    pub info_source: Option<String>,
}

/// One entry of a phase-center catalog.
#[derive(Debug, Clone, PartialEq, Eq)]
pub enum CatTypes {
    Unphased(UnphasedVal),
    Sidereal(SiderealVal),
    Ephem(EphemVal),
}

/// Phase centers keyed by name, kept in the order in which they were added.
#[derive(Debug, Clone, PartialEq, Eq)]
pub struct Catalog {
    pub entries: Vec<(String, CatTypes)>,
}

pub open spec fn names_distinct(e: Seq<(String, CatTypes)>) -> bool {
    forall|i: int, j: int| 0 <= i < j < e.len() ==> (#[trigger] e[i]).0@ != (#[trigger] e[j]).0@
}

/// The id of a catalog entry.
pub open spec fn cat_id_of(v: CatTypes) -> u32 {
    match v {
        CatTypes::Unphased(u) => u.cat_id,
        CatTypes::Sidereal(s) => s.cat_id,
        CatTypes::Ephem(e) => e.cat_id,
    }
}

/// Whether `v` is the unphased entry with id `id` and the kind tag `"unphased"`.
pub open spec fn is_unphased(v: CatTypes, id: u32) -> bool {
    v matches CatTypes::Unphased(u) && u.cat_id == id && u.cat_type@ == "unphased"@
}

/// The name of the seeded entry of phase `i`.
pub open spec fn zenith_name(i: nat) -> Seq<char> {
    "zenith_"@ + decimal_of(i)
}

/// The position of the entry named `name`, if there is one.
pub open spec fn position_of(e: Seq<(String, CatTypes)>, name: Seq<char>) -> Option<int> {
    if exists|i: int| 0 <= i < e.len() && #[trigger] e[i].0@ == name {
        Some(choose|i: int| 0 <= i < e.len() && #[trigger] e[i].0@ == name)
    } else {
        None
    }
}

/// Entries after adding `(name, val)`: it replaces the entry of that name in
/// its place, or goes last.
pub open spec fn inserted(e: Seq<(String, CatTypes)>, name: String, val: CatTypes) -> Seq<(String, CatTypes)> {
    match position_of(e, name@) {
        Some(k) => e.update(k, (name, val)),
        None => e.push((name, val)),
    }
}

/// The entries of a catalog built by adding `e` in order.
pub open spec fn built_from(e: Seq<(String, CatTypes)>) -> Seq<(String, CatTypes)>
    decreases e.len(),
{
    if e.len() == 0 {
        Seq::empty()
    } else {
        inserted(built_from(e.drop_last()), e.last().0, e.last().1)
    }
}

impl Catalog {
    pub open spec fn wf(&self) -> bool {
        names_distinct(self.entries@)
    }

    pub open spec fn len(&self) -> nat {
        self.entries@.len()
    }

    /// The position of the entry named `name`, if there is one.
    pub open spec fn index_of(&self, name: Seq<char>) -> Option<int> {
        position_of(self.entries@, name)
    }

    /// An empty catalog.
    pub fn new() -> (r: Catalog)
        ensures
            r.wf(),
            r.len() == 0,
    {
        Catalog { entries: Vec::new() }
    }

    /// Whether no two entries share a name.
    pub fn has_distinct_names(&self) -> (r: bool)
        ensures
            r == self.wf(),
    {
        let n = self.entries.len();
        let mut j: usize = 0;
        while j < n
            invariant
                j <= n,
                n == self.entries.len(),
                forall|a: int, b: int| 0 <= a < b < j ==> (#[trigger] self.entries[a]).0@ != (#[trigger] self.entries[b]).0@,
            decreases n - j,
        {
            let mut i: usize = 0;
            while i < j
                invariant
                    i <= j,
                    j < n,
                    n == self.entries.len(),
                    forall|a: int, b: int| 0 <= a < b < j ==> (#[trigger] self.entries[a]).0@ != (#[trigger] self.entries[b]).0@,
                    forall|a: int| 0 <= a < i ==> (#[trigger] self.entries[a]).0@ != self.entries[j as int].0@,
                decreases j - i,
            {
                if self.entries[i].0 == self.entries[j].0 {
                    return false;
                }
                i = i + 1;
            }
            j = j + 1;
        }
        true
    }

    /// The number of entries.
    pub fn count(&self) -> (r: usize)
        ensures
            r == self.len(),
    {
        self.entries.len()
    }

    /// Adds an entry under `name`, replacing the entry of that name if there
    /// is one (it keeps its place); else it goes last.
    pub fn insert(&mut self, name: String, val: CatTypes)
        requires
            old(self).wf(),
        ensures
            final(self).wf(),
            final(self).entries@ == inserted(old(self).entries@, name, val),
    {
        let mut i: usize = 0;
        while i < self.entries.len()
            invariant
                i <= self.entries.len(),
                self.entries@ == old(self).entries@,
                names_distinct(old(self).entries@),
                forall|j: int| 0 <= j < i ==> (#[trigger] self.entries[j]).0@ != name@,
            decreases self.entries.len() - i,
        {
            if self.entries[i].0 == name {
                proof {
                    let k = old(self).index_of(name@);
                    assert(k is Some);
                    let kk = k->0;
                    if kk < i {
                        assert(old(self).entries[kk].0@ != old(self).entries[i as int].0@);
                    } else if kk > i {
                        assert(old(self).entries[i as int].0@ != old(self).entries[kk].0@);
                    }
                    assert(kk == i);
                }
                self.entries.set(i, (name, val));
                proof {
                    assert forall|a: int, b: int| 0 <= a < b < self.entries.len() implies
                        (#[trigger] self.entries[a]).0@ != (#[trigger] self.entries[b]).0@ by {
                        assert(old(self).entries[a].0@ != old(self).entries[b].0@);
                        assert(self.entries[a].0@ == old(self).entries[a].0@);
                        assert(self.entries[b].0@ == old(self).entries[b].0@);
                    }
                }
                return;
            }
            i = i + 1;
        }
        proof {
            assert(old(self).index_of(name@) is None);
        }
        self.entries.push((name, val));
        proof {
            assert forall|a: int, b: int| 0 <= a < b < self.entries.len() implies
                (#[trigger] self.entries[a]).0@ != (#[trigger] self.entries[b]).0@ by {
                if b < old(self).entries.len() {
                    assert(old(self).entries[a].0@ != old(self).entries[b].0@);
                }
            }
        }
    }
}

proof fn lemma_decimal_nonempty(n: nat)
    ensures
        decimal_of(n).len() >= 1,
        n >= 10 ==> decimal_of(n).len() >= 2,
    decreases n,
{
    if n >= 10 {
        lemma_decimal_nonempty(n / 10);
    }
}

proof fn lemma_digit_char_injective(a: nat, b: nat)
    requires
        a < 10,
        b < 10,
        digit_char(a) == digit_char(b),
    ensures
        a == b,
{
}

/// Distinct numbers have distinct decimal texts.
pub proof fn lemma_decimal_injective(a: nat, b: nat)
    requires
        decimal_of(a) == decimal_of(b),
    ensures
        a == b,
    decreases a,
{
    lemma_decimal_nonempty(a);
    lemma_decimal_nonempty(b);
    if a < 10 && b < 10 {
        assert(decimal_of(a)[0] == digit_char(a));
        assert(decimal_of(b)[0] == digit_char(b));
        lemma_digit_char_injective(a, b);
    } else if a >= 10 && b >= 10 {
        let da = decimal_of(a);
        let db = decimal_of(b);
        assert(da.last() == digit_char(a % 10));
        assert(db.last() == digit_char(b % 10));
        lemma_digit_char_injective(a % 10, b % 10);
        assert(decimal_of(a / 10) =~= da.drop_last());
        assert(decimal_of(b / 10) =~= db.drop_last());
        lemma_decimal_injective(a / 10, b / 10);
    }
}

proof fn lemma_zenith_names_distinct(a: nat, b: nat)
    requires
        a != b,
    ensures
        zenith_name(a) != zenith_name(b),
{
    if zenith_name(a) == zenith_name(b) {
        let p = "zenith_"@;
        assert(zenith_name(a).subrange(p.len() as int, zenith_name(a).len() as int) =~= decimal_of(a));
        assert(zenith_name(b).subrange(p.len() as int, zenith_name(b).len() as int) =~= decimal_of(b));
        lemma_decimal_injective(a, b);
    }
}

/// The catalog of a dataset built from scratch: one unphased entry
/// `"zenith_<i>"` with id `i` for each phase `i`.
pub fn zenith_catalog(nphases: u32) -> (r: Catalog)
    ensures
        r.wf(),
        r.len() == nphases,
        forall|i: int| 0 <= i < nphases ==> (#[trigger] r.entries[i]).0@ == zenith_name(i as nat)
            && is_unphased(r.entries[i].1, i as u32),
{
    let mut cat = Catalog::new();
    let mut p: u32 = 0;
    while p < nphases
        invariant
            p <= nphases,
            cat.wf(),
            cat.len() == p,
            forall|i: int| 0 <= i < p ==> (#[trigger] cat.entries[i]).0@ == zenith_name(i as nat)
                && is_unphased(cat.entries[i].1, i as u32),
        decreases nphases - p,
    {
        let digits = decimal(p);
        let name = join3("zenith_", digits.as_str(), "");
        proof {
            reveal_strlit("");
            assert(name@ =~= zenith_name(p as nat));
            assert forall|i: int| 0 <= i < p implies #[trigger] cat.entries[i].0@ != name@ by {
                lemma_zenith_names_distinct(i as nat, p as nat);
            }
            assert(cat.index_of(name@) is None);
        }
        cat.insert(name, CatTypes::Unphased(UnphasedVal { cat_id: p, cat_type: String::from_str("unphased") }));
        p = p + 1;
    }
    cat
}

/// A catalog of the given entries, added in order; a later entry replaces an
/// earlier one of the same name.
pub fn catalog_from_entries(entries: Vec<(String, CatTypes)>) -> (r: Catalog)
    ensures
        r.wf(),
        r.entries@ == built_from(entries@),
{
    let mut cat = Catalog::new();
    let mut rest = entries;
    let ghost all = rest@;
    let mut i: usize = 0;
    let n = rest.len();
    while i < n
        invariant
            i <= n,
            n == all.len(),
            rest@ == all.subrange(i as int, n as int),
            cat.wf(),
            cat.entries@ == built_from(all.subrange(0, i as int)),
        decreases n - i,
    {
        let (name, val) = rest.remove(0);
        proof {
            assert(all.subrange(0, i + 1).drop_last() =~= all.subrange(0, i as int));
            assert(rest@ =~= all.subrange(i + 1, n as int));
        }
        cat.insert(name, val);
        i = i + 1;
    }
    assert(all.subrange(0, n as int) =~= all);
    cat
}

/// Building a catalog from entries whose names are distinct keeps them as
/// they are, in order.
pub proof fn lemma_built_from_distinct(e: Seq<(String, CatTypes)>)
    requires
        names_distinct(e),
    ensures
        built_from(e) == e,
    decreases e.len(),
{
    if e.len() > 0 {
        let d = e.drop_last();
        assert(names_distinct(d)) by {
            assert forall|i: int, j: int| 0 <= i < j < d.len() implies (#[trigger] d[i]).0@ != (#[trigger] d[j]).0@ by {
                assert(e[i] == d[i] && e[j] == d[j]);
            }
        }
        lemma_built_from_distinct(d);
        assert forall|i: int| 0 <= i < d.len() implies #[trigger] d[i].0@ != e.last().0@ by {
            assert(e[i] == d[i]);
        }
        assert(position_of(d, e.last().0@) is None);
        assert(d.push(e.last()) =~= e);
    }
}

} // verus!
