use vstd::prelude::*;

use crate::text::{chars_of, join3, string_of};

verus! {

/// Version of this library, as stamped into the history of the files it reads
/// and writes.
pub const VERSION_STR: &'static str = "0.1.0";

/// The stamp appended to a history.
pub open spec fn version_stamp() -> Seq<char> {
    " Read/Written with uvdata-rust "@ + VERSION_STR@ + "."@
}

/// The stamp that marks a history as read or written by this library.
pub fn print_version_str() -> (r: String)
    ensures
        r@ == version_stamp(),
{
    join3(" Read/Written with uvdata-rust ", VERSION_STR, ".")
}

/// Characters that are ignored when a history is searched for the stamp.
pub open spec fn is_blank(c: char) -> bool {
    c == ' ' || c == '\n'
}

/// A text with its spaces and line breaks removed.
pub open spec fn stripped(s: Seq<char>) -> Seq<char>
    decreases s.len(),
{
    if s.len() == 0 {
        Seq::empty()
    } else if is_blank(s.last()) {
        stripped(s.drop_last())
    } else {
        stripped(s.drop_last()).push(s.last())
    }
}

/// Whether `needle` occurs in `hay` as a contiguous run.
pub open spec fn occurs_in(needle: Seq<char>, hay: Seq<char>) -> bool {
    exists|i: int| 0 <= i && i + needle.len() <= hay.len() && #[trigger] hay.subrange(i, i + needle.len()) == needle
}

/// Whether a history already carries the stamp, ignoring spaces and line breaks.
pub open spec fn is_stamped(h: Seq<char>) -> bool {
    occurs_in(stripped(version_stamp()), stripped(h))
}

/// A history with the stamp appended, unless it already carries it.
pub open spec fn stamped(h: Seq<char>) -> Seq<char> {
    if is_stamped(h) {
        h
    } else {
        h + version_stamp()
    }
}

fn strip_blanks(s: &Vec<char>) -> (r: Vec<char>)
    ensures
        r@ == stripped(s@),
{
    let mut r: Vec<char> = Vec::new();
    let mut i: usize = 0;
    while i < s.len()
        invariant
            i <= s.len(),
            r@ == stripped(s@.subrange(0, i as int)),
        decreases s.len() - i,
    {
        let c = s[i];
        assert(s@.subrange(0, i + 1).drop_last() =~= s@.subrange(0, i as int));
        if c != ' ' && c != '\n' {
            r.push(c);
        }
        i = i + 1;
    }
    assert(s@.subrange(0, s.len() as int) =~= s@);
    r
}

fn occurs_at(needle: &Vec<char>, hay: &Vec<char>, at: usize) -> (r: bool)
    requires
        at + needle.len() <= hay.len(),
    ensures
        r == (hay@.subrange(at as int, at + needle.len()) == needle@),
{
    let mut j: usize = 0;
    while j < needle.len()
        invariant
            j <= needle.len(),
            at + needle.len() <= hay.len(),
            forall|k: int| 0 <= k < j ==> hay@[at + k] == needle@[k],
        decreases needle.len() - j,
    {
        if hay[at + j] != needle[j] {
            assert(hay@.subrange(at as int, at + needle.len())[j as int] != needle@[j as int]);
            return false;
        }
        j = j + 1;
    }
    assert(hay@.subrange(at as int, at + needle.len()) =~= needle@);
    true
}

fn occurs(needle: &Vec<char>, hay: &Vec<char>) -> (r: bool)
    ensures
        r == occurs_in(needle@, hay@),
{
    if needle.len() > hay.len() {
        return false;
    }
    let last = hay.len() - needle.len();
    let mut i: usize = 0;
    loop
        invariant
            i <= last,
            last + needle.len() == hay.len(),
            forall|k: int| 0 <= k < i ==> #[trigger] hay@.subrange(k, k + needle.len()) != needle@,
        decreases last - i,
    {
        if occurs_at(needle, hay, i) {
            return true;
        }
        if i == last {
            return false;
        }
        i = i + 1;
    }
}

/// Appends the stamp to a history unless it already carries it, ignoring
/// spaces and line breaks when looking for it.
pub fn stamp_history(history: &str) -> (r: String)
    ensures
        r@ == stamped(history@),
{
    let stamp = print_version_str();
    let h = chars_of(history);
    let key = strip_blanks(&chars_of(stamp.as_str()));
    if occurs(&key, &strip_blanks(&h)) {
        string_of(&h)
    } else {
        let mut out = string_of(&h);
        out.append(stamp.as_str());
        out
    }
}

proof fn lemma_stripped_append(a: Seq<char>, b: Seq<char>)
    ensures
        stripped(a + b) == stripped(a) + stripped(b),
    decreases b.len(),
{
    if b.len() == 0 {
        assert(a + b =~= a);
        assert(stripped(b) =~= Seq::<char>::empty());
        assert(stripped(a) + stripped(b) =~= stripped(a));
    } else {
        assert((a + b).drop_last() =~= a + b.drop_last());
        assert((a + b).last() == b.last());
        lemma_stripped_append(a, b.drop_last());
        if is_blank(b.last()) {
        } else {
            assert(stripped(a) + stripped(b.drop_last()).push(b.last())
                =~= (stripped(a) + stripped(b.drop_last())).push(b.last()));
        }
    }
}

/// Stamping a history twice gives the same text as stamping it once.
pub proof fn lemma_stamp_idempotent(h: Seq<char>)
    ensures
        stamped(stamped(h)) == stamped(h),
        is_stamped(stamped(h)),
{
    if !is_stamped(h) {
        let s = version_stamp();
        lemma_stripped_append(h, s);
        let k = stripped(h).len() as int;
        assert((stripped(h) + stripped(s)).subrange(k, k + stripped(s).len()) =~= stripped(s));
    }
}

} // verus!
