use vstd::prelude::*;

use crate::text::{is_plain, is_text, join3, normalize, normalized};

verus! {

/// Unit of the visibilities.
#[derive(Debug, Clone, Copy, PartialEq, Eq, Structural)]
pub enum VisUnit {
    Uncalib,
    Jansky,
    Kelvinstr,
}

/// How the visibilities are phased.
#[derive(Debug, Clone, Copy, PartialEq, Eq, Structural)]
pub enum PhaseType {
    Drift,
    Phased,
    Multi,
}

/// Convention of the equalization coefficients.
#[derive(Debug, Clone, Copy, PartialEq, Eq, Structural)]
pub enum EqConvention {
    Divide,
    Multiply,
    Unknown,
}

/// Orientation of the x feed.
#[derive(Debug, Clone, Copy, PartialEq, Eq, Structural)]
pub enum Orientation {
    East,
    North,
    Unknown,
}

/// One key of a baseline-time ordering.
#[derive(Debug, Clone, Copy, PartialEq, Eq, Structural)]
pub enum BltOrders {
    Ant1,
    Ant2,
    Time,
    Baseline,
    Bda,
    Unknown,
}

/// Ordering of the baseline-time axis: a major and a minor key.
#[derive(Debug, Clone, Copy, PartialEq, Eq, Structural)]
pub struct BltOrder {
    pub major: BltOrders,
    pub minor: BltOrders,
}

// ---------------------------------------------------------------- VisUnit

pub open spec fn vis_unit_text(u: VisUnit) -> Seq<char> {
    match u {
        VisUnit::Uncalib => "uncalib"@,
        VisUnit::Jansky => "jy"@,
        VisUnit::Kelvinstr => "k str"@,
    }
}

pub open spec fn vis_unit_from_text(t: Seq<char>) -> Option<VisUnit> {
    if t == "uncalib"@ {
        Some(VisUnit::Uncalib)
    } else if t == "jy"@ {
        Some(VisUnit::Jansky)
    } else if t == "k str"@ {
        Some(VisUnit::Kelvinstr)
    } else {
        None
    }
}

/// The message of a failed parse: a prefix, the normalized input, a full stop.
pub open spec fn parse_error_text(prefix: Seq<char>, input: Seq<char>) -> Seq<char> {
    prefix + normalized(input) + "."@
}

/// The result of parsing `input` with the keyword table `found` and the
/// error prefix `prefix`.
pub open spec fn parse_outcome<E>(found: Option<E>, prefix: Seq<char>, input: Seq<char>, r: Result<E, String>) -> bool {
    match found {
        Some(v) => r == Ok::<E, String>(v),
        None => r matches Err(m) && m@ == parse_error_text(prefix, input),
    }
}

impl VisUnit {
    /// The canonical keyword of the unit.
    pub fn as_text(&self) -> (r: &'static str)
        ensures
            r@ == vis_unit_text(*self),
    {
        match self {
            VisUnit::Uncalib => "uncalib",
            VisUnit::Jansky => "jy",
            VisUnit::Kelvinstr => "k str",
        }
    }

    /// Decodes an already normalized keyword.
    pub fn from_text(t: &str) -> (r: Option<VisUnit>)
        ensures
            r == vis_unit_from_text(t@),
    {
        if is_text(t, "uncalib") {
            Some(VisUnit::Uncalib)
        } else if is_text(t, "jy") {
            Some(VisUnit::Jansky)
        } else if is_text(t, "k str") {
            Some(VisUnit::Kelvinstr)
        } else {
            None
        }
    }

    /// Parses a keyword, ignoring case and surrounding whitespace.
    pub fn parse(input: &str) -> (r: Result<VisUnit, String>)
        ensures
            parse_outcome(vis_unit_from_text(normalized(input@)), "Unknown Visibility Unit: "@, input@, r),
            is_plain(input@) ==> normalized(input@) == input@,
    {
        let t = normalize(input);
        match VisUnit::from_text(t.as_str()) {
            Some(v) => Ok(v),
            None => Err(join3("Unknown Visibility Unit: ", t.as_str(), ".")),
        }
    }
}

/// Each unit's keyword decodes back to the unit.
pub proof fn lemma_vis_unit_text_round_trip(u: VisUnit)
    ensures
        vis_unit_from_text(vis_unit_text(u)) == Some(u),
{
    reveal_strlit("uncalib");
    reveal_strlit("jy");
    reveal_strlit("k str");
    assert("jy"@.len() != "uncalib"@.len());
    assert("k str"@.len() != "uncalib"@.len());
    assert("k str"@.len() != "jy"@.len());
}

} // verus!

verus! {

// ---------------------------------------------------------------- PhaseType

pub open spec fn phase_type_text(p: PhaseType) -> Seq<char> {
    match p {
        PhaseType::Drift => "drift"@,
        PhaseType::Phased => "phased"@,
        PhaseType::Multi => "multi"@,
    }
}

pub open spec fn phase_type_from_text(t: Seq<char>) -> Option<PhaseType> {
    if t == "drift"@ {
        Some(PhaseType::Drift)
    } else if t == "phased"@ {
        Some(PhaseType::Phased)
    } else if t == "multi"@ {
        Some(PhaseType::Multi)
    } else {
        None
    }
}

impl PhaseType {
    /// The canonical keyword of the phase type.
    pub fn as_text(&self) -> (r: &'static str)
        ensures
            r@ == phase_type_text(*self),
    {
        match self {
            PhaseType::Drift => "drift",
            PhaseType::Phased => "phased",
            PhaseType::Multi => "multi",
        }
    }

    /// Decodes an already normalized keyword.
    pub fn from_text(t: &str) -> (r: Option<PhaseType>)
        ensures
            r == phase_type_from_text(t@),
    {
        if is_text(t, "drift") {
            Some(PhaseType::Drift)
        } else if is_text(t, "phased") {
            Some(PhaseType::Phased)
        } else if is_text(t, "multi") {
            Some(PhaseType::Multi)
        } else {
            None
        }
    }

    /// Parses a keyword, ignoring case and surrounding whitespace.
    pub fn parse(input: &str) -> (r: Result<PhaseType, String>)
        ensures
            parse_outcome(phase_type_from_text(normalized(input@)), "Unknown phase type: "@, input@, r),
            is_plain(input@) ==> normalized(input@) == input@,
    {
        let t = normalize(input);
        match PhaseType::from_text(t.as_str()) {
            Some(v) => Ok(v),
            None => Err(join3("Unknown phase type: ", t.as_str(), ".")),
        }
    }
}

/// Each phase type's keyword decodes back to it.
pub proof fn lemma_phase_type_text_round_trip(p: PhaseType)
    ensures
        phase_type_from_text(phase_type_text(p)) == Some(p),
{
    reveal_strlit("drift");
    reveal_strlit("phased");
    reveal_strlit("multi");
    assert("drift"@.len() != "phased"@.len());
    assert("multi"@.len() != "phased"@.len());
    assert("multi"@[0] != "drift"@[0]);
}

// ---------------------------------------------------------------- EqConvention

pub open spec fn eq_convention_text(c: EqConvention) -> Seq<char> {
    match c {
        EqConvention::Divide => "divide"@,
        EqConvention::Multiply => "multiply"@,
        EqConvention::Unknown => "unknown"@,
    }
}

pub open spec fn eq_convention_from_text(t: Seq<char>) -> Option<EqConvention> {
    if t == "divide"@ {
        Some(EqConvention::Divide)
    } else if t == "multiply"@ {
        Some(EqConvention::Multiply)
    } else if t == "unknown"@ {
        Some(EqConvention::Unknown)
    } else {
        None
    }
}

impl EqConvention {
    /// The canonical keyword of the convention.
    pub fn as_text(&self) -> (r: &'static str)
        ensures
            r@ == eq_convention_text(*self),
    {
        match self {
            EqConvention::Divide => "divide",
            EqConvention::Multiply => "multiply",
            EqConvention::Unknown => "unknown",
        }
    }

    /// Decodes an already normalized keyword.
    pub fn from_text(t: &str) -> (r: Option<EqConvention>)
        ensures
            r == eq_convention_from_text(t@),
    {
        if is_text(t, "divide") {
            Some(EqConvention::Divide)
        } else if is_text(t, "multiply") {
            Some(EqConvention::Multiply)
        } else if is_text(t, "unknown") {
            Some(EqConvention::Unknown)
        } else {
            None
        }
    }

    /// Parses a keyword, ignoring case and surrounding whitespace.
    pub fn parse(input: &str) -> (r: Result<EqConvention, String>)
        ensures
            parse_outcome(eq_convention_from_text(normalized(input@)), "Unknown Equalization Convention: "@, input@, r),
            is_plain(input@) ==> normalized(input@) == input@,
    {
        let t = normalize(input);
        match EqConvention::from_text(t.as_str()) {
            Some(v) => Ok(v),
            None => Err(join3("Unknown Equalization Convention: ", t.as_str(), ".")),
        }
    }
}

/// Each convention's keyword decodes back to it.
pub proof fn lemma_eq_convention_text_round_trip(c: EqConvention)
    ensures
        eq_convention_from_text(eq_convention_text(c)) == Some(c),
{
    reveal_strlit("divide");
    reveal_strlit("multiply");
    reveal_strlit("unknown");
    assert("divide"@.len() != "multiply"@.len());
    assert("divide"@.len() != "unknown"@.len());
    assert("multiply"@.len() != "unknown"@.len());
}

// ---------------------------------------------------------------- Orientation

pub open spec fn orientation_text(o: Orientation) -> Seq<char> {
    match o {
        Orientation::East => "east"@,
        Orientation::North => "north"@,
        Orientation::Unknown => "unknown"@,
    }
}

pub open spec fn orientation_from_text(t: Seq<char>) -> Option<Orientation> {
    if t == "east"@ {
        Some(Orientation::East)
    } else if t == "north"@ {
        Some(Orientation::North)
    } else if t == "unknown"@ {
        Some(Orientation::Unknown)
    } else {
        None
    }
}

impl Orientation {
    /// The canonical keyword of the orientation.
    pub fn as_text(&self) -> (r: &'static str)
        ensures
            r@ == orientation_text(*self),
    {
        match self {
            Orientation::East => "east",
            Orientation::North => "north",
            Orientation::Unknown => "unknown",
        }
    }

    /// Decodes an already normalized keyword.
    pub fn from_text(t: &str) -> (r: Option<Orientation>)
        ensures
            r == orientation_from_text(t@),
    {
        if is_text(t, "east") {
            Some(Orientation::East)
        } else if is_text(t, "north") {
            Some(Orientation::North)
        } else if is_text(t, "unknown") {
            Some(Orientation::Unknown)
        } else {
            None
        }
    }

    /// Parses a keyword, ignoring case and surrounding whitespace.
    pub fn parse(input: &str) -> (r: Result<Orientation, String>)
        ensures
            parse_outcome(orientation_from_text(normalized(input@)), "Unknown Orientation: "@, input@, r),
            is_plain(input@) ==> normalized(input@) == input@,
    {
        let t = normalize(input);
        match Orientation::from_text(t.as_str()) {
            Some(v) => Ok(v),
            None => Err(join3("Unknown Orientation: ", t.as_str(), ".")),
        }
    }
}

/// Each orientation's keyword decodes back to it.
pub proof fn lemma_orientation_text_round_trip(o: Orientation)
    ensures
        orientation_from_text(orientation_text(o)) == Some(o),
{
    reveal_strlit("east");
    reveal_strlit("north");
    reveal_strlit("unknown");
    assert("east"@.len() != "north"@.len());
    assert("east"@.len() != "unknown"@.len());
    assert("north"@.len() != "unknown"@.len());
}

} // verus!

verus! {

// ---------------------------------------------------------------- BltOrder

pub open spec fn blt_key_text(k: BltOrders) -> Seq<char> {
    match k {
        BltOrders::Ant1 => "ant1"@,
        BltOrders::Ant2 => "ant2"@,
        BltOrders::Time => "time"@,
        BltOrders::Baseline => "baseline"@,
        BltOrders::Bda => "bda"@,
        BltOrders::Unknown => "unknown"@,
    }
}

pub open spec fn order(major: BltOrders, minor: BltOrders) -> BltOrder {
    BltOrder { major, minor }
}

/// The text of an ordering: `"major, minor"`, with `"bda,"` for a
/// baseline-dependent averaging and `"unknown"` for the unknown ordering.
pub open spec fn blt_order_text(o: BltOrder) -> Seq<char> {
    if o.major == BltOrders::Bda {
        "bda,"@
    } else if o.major == BltOrders::Unknown && o.minor == BltOrders::Unknown {
        "unknown"@
    } else {
        blt_key_text(o.major) + ", "@ + blt_key_text(o.minor)
    }
}

pub open spec fn blt_order_from_text(t: Seq<char>) -> Option<BltOrder> {
    if t == "bda,"@ {
        Some(order(BltOrders::Bda, BltOrders::Bda))
    } else if t == "baseline, time"@ {
        Some(order(BltOrders::Baseline, BltOrders::Time))
    } else if t == "baseline, ant1"@ {
        Some(order(BltOrders::Baseline, BltOrders::Ant1))
    } else if t == "baseline, ant2"@ {
        Some(order(BltOrders::Baseline, BltOrders::Ant2))
    } else if t == "time, baseline"@ {
        Some(order(BltOrders::Time, BltOrders::Baseline))
    } else if t == "time, ant1"@ {
        Some(order(BltOrders::Time, BltOrders::Ant1))
    } else if t == "time, ant2"@ {
        Some(order(BltOrders::Time, BltOrders::Ant2))
    } else if t == "ant1, ant2"@ {
        Some(order(BltOrders::Ant1, BltOrders::Ant2))
    } else if t == "ant1, time"@ {
        Some(order(BltOrders::Ant1, BltOrders::Time))
    } else if t == "ant1, baseline"@ {
        Some(order(BltOrders::Ant1, BltOrders::Baseline))
    } else if t == "ant2, ant1"@ {
        Some(order(BltOrders::Ant2, BltOrders::Ant1))
    } else if t == "ant2, time"@ {
        Some(order(BltOrders::Ant2, BltOrders::Time))
    } else if t == "ant2, baseline"@ {
        Some(order(BltOrders::Ant2, BltOrders::Baseline))
    } else if t == "unknown"@ {
        Some(order(BltOrders::Unknown, BltOrders::Unknown))
    } else {
        None
    }
}

/// The orderings that have a keyword.
pub open spec fn is_listed_order(o: BltOrder) -> bool {
    match (o.major, o.minor) {
        (BltOrders::Bda, BltOrders::Bda) => true,
        (BltOrders::Baseline, BltOrders::Time) => true,
        (BltOrders::Baseline, BltOrders::Ant1) => true,
        (BltOrders::Baseline, BltOrders::Ant2) => true,
        (BltOrders::Time, BltOrders::Baseline) => true,
        (BltOrders::Time, BltOrders::Ant1) => true,
        (BltOrders::Time, BltOrders::Ant2) => true,
        (BltOrders::Ant1, BltOrders::Ant2) => true,
        (BltOrders::Ant1, BltOrders::Time) => true,
        (BltOrders::Ant1, BltOrders::Baseline) => true,
        (BltOrders::Ant2, BltOrders::Ant1) => true,
        (BltOrders::Ant2, BltOrders::Time) => true,
        (BltOrders::Ant2, BltOrders::Baseline) => true,
        (BltOrders::Unknown, BltOrders::Unknown) => true,
        _ => false,
    }
}

impl BltOrders {
    /// The keyword of one ordering key.
    pub fn as_text(&self) -> (r: &'static str)
        ensures
            r@ == blt_key_text(*self),
    {
        match self {
            BltOrders::Ant1 => "ant1",
            BltOrders::Ant2 => "ant2",
            BltOrders::Time => "time",
            BltOrders::Baseline => "baseline",
            BltOrders::Bda => "bda",
            BltOrders::Unknown => "unknown",
        }
    }
}

impl BltOrder {
    pub open spec fn unknown_spec() -> BltOrder {
        order(BltOrders::Unknown, BltOrders::Unknown)
    }

    /// The ordering in which nothing is known.
    pub fn unknown() -> (r: BltOrder)
        ensures
            r == order(BltOrders::Unknown, BltOrders::Unknown),
    {
        BltOrder { major: BltOrders::Unknown, minor: BltOrders::Unknown }
    }

    /// Whether this is the unknown ordering.
    pub fn is_unknown(&self) -> (r: bool)
        ensures
            r == (self.major == BltOrders::Unknown && self.minor == BltOrders::Unknown),
    {
        self.major == BltOrders::Unknown && self.minor == BltOrders::Unknown
    }

    /// The text of the ordering.
    pub fn to_text(&self) -> (r: String)
        ensures
            r@ == blt_order_text(*self),
    {
        if self.major == BltOrders::Bda {
            String::from_str("bda,")
        } else if self.is_unknown() {
            String::from_str("unknown")
        } else {
            join3(self.major.as_text(), ", ", self.minor.as_text())
        }
    }

    /// Decodes an already normalized keyword.
    pub fn from_text(t: &str) -> (r: Option<BltOrder>)
        ensures
            r == blt_order_from_text(t@),
    {
        let k = if is_text(t, "bda,") {
            (BltOrders::Bda, BltOrders::Bda)
        } else if is_text(t, "baseline, time") {
            (BltOrders::Baseline, BltOrders::Time)
        } else if is_text(t, "baseline, ant1") {
            (BltOrders::Baseline, BltOrders::Ant1)
        } else if is_text(t, "baseline, ant2") {
            (BltOrders::Baseline, BltOrders::Ant2)
        } else if is_text(t, "time, baseline") {
            (BltOrders::Time, BltOrders::Baseline)
        } else if is_text(t, "time, ant1") {
            (BltOrders::Time, BltOrders::Ant1)
        } else if is_text(t, "time, ant2") {
            (BltOrders::Time, BltOrders::Ant2)
        } else if is_text(t, "ant1, ant2") {
            (BltOrders::Ant1, BltOrders::Ant2)
        } else if is_text(t, "ant1, time") {
            (BltOrders::Ant1, BltOrders::Time)
        } else if is_text(t, "ant1, baseline") {
            (BltOrders::Ant1, BltOrders::Baseline)
        } else if is_text(t, "ant2, ant1") {
            (BltOrders::Ant2, BltOrders::Ant1)
        } else if is_text(t, "ant2, time") {
            (BltOrders::Ant2, BltOrders::Time)
        } else if is_text(t, "ant2, baseline") {
            (BltOrders::Ant2, BltOrders::Baseline)
        } else if is_text(t, "unknown") {
            (BltOrders::Unknown, BltOrders::Unknown)
        } else {
            return None;
        };
        Some(BltOrder { major: k.0, minor: k.1 })
    }

    /// Parses an ordering, ignoring case and surrounding whitespace.
    pub fn parse(input: &str) -> (r: Result<BltOrder, String>)
        ensures
            parse_outcome(blt_order_from_text(normalized(input@)), "Unknown Blt Ordering: "@, input@, r),
            is_plain(input@) ==> normalized(input@) == input@,
    {
        let t = normalize(input);
        match BltOrder::from_text(t.as_str()) {
            Some(v) => Ok(v),
            None => Err(join3("Unknown Blt Ordering: ", t.as_str(), ".")),
        }
    }
}

} // verus!

verus! {

/// The text of every listed ordering decodes back to it, and every decoded
/// ordering is listed.
#[verifier::rlimit(50)]
pub proof fn lemma_blt_order_text_round_trip(o: BltOrder)
    ensures
        is_listed_order(o) ==> blt_order_from_text(blt_order_text(o)) == Some(o),
        blt_order_from_text(blt_order_text(o)) matches Some(p) ==> is_listed_order(p),
        is_listed_order(o) ==> is_plain(blt_order_text(o)),
{
    reveal_strlit("ant1");
    reveal_strlit("ant2");
    reveal_strlit("time");
    reveal_strlit("baseline");
    reveal_strlit("bda");
    reveal_strlit("unknown");
    reveal_strlit(", ");
    reveal_strlit("bda,");
    reveal_strlit("baseline, time");
    reveal_strlit("baseline, ant1");
    reveal_strlit("baseline, ant2");
    reveal_strlit("time, baseline");
    reveal_strlit("time, ant1");
    reveal_strlit("time, ant2");
    reveal_strlit("ant1, ant2");
    reveal_strlit("ant1, time");
    reveal_strlit("ant1, baseline");
    reveal_strlit("ant2, ant1");
    reveal_strlit("ant2, time");
    reveal_strlit("ant2, baseline");
    let t = blt_order_text(o);
    match (o.major, o.minor) {
        (BltOrders::Baseline, BltOrders::Time) => {
            assert(t =~= "baseline, time"@);
        },
        (BltOrders::Baseline, BltOrders::Ant1) => {
            assert(t =~= "baseline, ant1"@);
            assert(t[10] != "baseline, time"@[10]);
        },
        (BltOrders::Baseline, BltOrders::Ant2) => {
            assert(t =~= "baseline, ant2"@);
            assert(t[10] != "baseline, time"@[10]);
            assert(t[13] != "baseline, ant1"@[13]);
        },
        (BltOrders::Time, BltOrders::Baseline) => {
            assert(t =~= "time, baseline"@);
            assert(t[0] != "baseline, time"@[0]);
            assert(t[0] != "baseline, ant1"@[0]);
            assert(t[0] != "baseline, ant2"@[0]);
        },
        (BltOrders::Time, BltOrders::Ant1) => {
            assert(t =~= "time, ant1"@);
        },
        (BltOrders::Time, BltOrders::Ant2) => {
            assert(t =~= "time, ant2"@);
            assert(t[9] != "time, ant1"@[9]);
        },
        (BltOrders::Ant1, BltOrders::Ant2) => {
            assert(t =~= "ant1, ant2"@);
            assert(t[0] != "time, ant1"@[0]);
            assert(t[0] != "time, ant2"@[0]);
        },
        (BltOrders::Ant1, BltOrders::Time) => {
            assert(t =~= "ant1, time"@);
            assert(t[0] != "time, ant1"@[0]);
            assert(t[0] != "time, ant2"@[0]);
            assert(t[6] != "ant1, ant2"@[6]);
        },
        (BltOrders::Ant1, BltOrders::Baseline) => {
            assert(t =~= "ant1, baseline"@);
            assert(t[0] != "baseline, time"@[0]);
            assert(t[0] != "baseline, ant1"@[0]);
            assert(t[0] != "baseline, ant2"@[0]);
            assert(t[0] != "time, baseline"@[0]);
        },
        (BltOrders::Ant2, BltOrders::Ant1) => {
            assert(t =~= "ant2, ant1"@);
            assert(t[0] != "time, ant1"@[0]);
            assert(t[0] != "time, ant2"@[0]);
            assert(t[3] != "ant1, ant2"@[3]);
            assert(t[3] != "ant1, time"@[3]);
        },
        (BltOrders::Ant2, BltOrders::Time) => {
            assert(t =~= "ant2, time"@);
            assert(t[0] != "time, ant1"@[0]);
            assert(t[0] != "time, ant2"@[0]);
            assert(t[3] != "ant1, ant2"@[3]);
            assert(t[3] != "ant1, time"@[3]);
            assert(t[6] != "ant2, ant1"@[6]);
        },
        (BltOrders::Ant2, BltOrders::Baseline) => {
            assert(t =~= "ant2, baseline"@);
            assert(t[0] != "baseline, time"@[0]);
            assert(t[0] != "baseline, ant1"@[0]);
            assert(t[0] != "baseline, ant2"@[0]);
            assert(t[0] != "time, baseline"@[0]);
            assert(t[3] != "ant1, baseline"@[3]);
        },
        (BltOrders::Bda, BltOrders::Bda) => {
            assert(t == "bda,"@);
        },
        (BltOrders::Unknown, BltOrders::Unknown) => {
            assert(t == "unknown"@);
            assert(t.len() != "bda,"@.len() && t.len() != "baseline, time"@.len() && t.len() != "time, ant1"@.len());
        },
        _ => {},
    }
}

impl std::str::FromStr for VisUnit {
    type Err = String;

    /// Parses a keyword, ignoring case and surrounding whitespace.
    fn from_str(input: &str) -> (r: Result<VisUnit, String>)
        ensures
            parse_outcome(vis_unit_from_text(normalized(input@)), "Unknown Visibility Unit: "@, input@, r),
            is_plain(input@) ==> normalized(input@) == input@,
    {
        VisUnit::parse(input)
    }
}

impl std::str::FromStr for PhaseType {
    type Err = String;

    /// Parses a keyword, ignoring case and surrounding whitespace.
    fn from_str(input: &str) -> (r: Result<PhaseType, String>)
        ensures
            parse_outcome(phase_type_from_text(normalized(input@)), "Unknown phase type: "@, input@, r),
            is_plain(input@) ==> normalized(input@) == input@,
    {
        PhaseType::parse(input)
    }
}

impl std::str::FromStr for EqConvention {
    type Err = String;

    /// Parses a keyword, ignoring case and surrounding whitespace.
    fn from_str(input: &str) -> (r: Result<EqConvention, String>)
        ensures
            parse_outcome(eq_convention_from_text(normalized(input@)), "Unknown Equalization Convention: "@, input@, r),
            is_plain(input@) ==> normalized(input@) == input@,
    {
        EqConvention::parse(input)
    }
}

impl std::str::FromStr for Orientation {
    type Err = String;

    /// Parses a keyword, ignoring case and surrounding whitespace.
    fn from_str(input: &str) -> (r: Result<Orientation, String>)
        ensures
            parse_outcome(orientation_from_text(normalized(input@)), "Unknown Orientation: "@, input@, r),
            is_plain(input@) ==> normalized(input@) == input@,
    {
        Orientation::parse(input)
    }
}

impl std::str::FromStr for BltOrder {
    type Err = String;

    /// Parses a keyword, ignoring case and surrounding whitespace.
    fn from_str(input: &str) -> (r: Result<BltOrder, String>)
        ensures
            parse_outcome(blt_order_from_text(normalized(input@)), "Unknown Blt Ordering: "@, input@, r),
            is_plain(input@) ==> normalized(input@) == input@,
    {
        BltOrder::parse(input)
    }
}

/// The canonical keywords are written in plain characters, so that parsing
/// them gives them back (see `parse`).
pub proof fn lemma_keywords_plain(u: VisUnit, p: PhaseType, c: EqConvention, o: Orientation, b: BltOrder)
    ensures
        is_plain(vis_unit_text(u)),
        is_plain(phase_type_text(p)),
        is_plain(eq_convention_text(c)),
        is_plain(orientation_text(o)),
        is_listed_order(b) ==> is_plain(blt_order_text(b)),
{
    reveal_strlit("uncalib");
    reveal_strlit("jy");
    reveal_strlit("k str");
    reveal_strlit("drift");
    reveal_strlit("phased");
    reveal_strlit("multi");
    reveal_strlit("divide");
    reveal_strlit("multiply");
    reveal_strlit("unknown");
    reveal_strlit("east");
    reveal_strlit("north");
    reveal_strlit("bda,");
    lemma_blt_order_text_round_trip(b);
}

/// Parsing the text of a listed ordering gives the ordering back.
pub proof fn lemma_blt_order_parses_back(o: BltOrder, input: Seq<char>, r: Result<BltOrder, String>)
    requires
        is_listed_order(o),
        input == blt_order_text(o),
        parse_outcome(blt_order_from_text(normalized(input)), "Unknown Blt Ordering: "@, input, r),
        is_plain(input) ==> normalized(input) == input,
    ensures
        r == Ok::<BltOrder, String>(o),
{
    lemma_blt_order_text_round_trip(o);
}

/// Parsing the keyword of a unit gives the unit back.
pub proof fn lemma_vis_unit_parses_back(u: VisUnit, input: Seq<char>, r: Result<VisUnit, String>)
    requires
        input == vis_unit_text(u),
        parse_outcome(vis_unit_from_text(normalized(input)), "Unknown Visibility Unit: "@, input, r),
        is_plain(input) ==> normalized(input) == input,
    ensures
        r == Ok::<VisUnit, String>(u),
{
    lemma_vis_unit_text_round_trip(u);
    lemma_keywords_plain(u, PhaseType::Drift, EqConvention::Unknown, Orientation::Unknown, BltOrder::unknown_spec());
}

} // verus!
