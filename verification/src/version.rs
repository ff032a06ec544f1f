//! Parsing of an OS version string: a dot-separated numeric string is read
//! into (major, minor, patch), with any missing or unparsable component
//! read as 0. The probe that produces the string may fail altogether; that
//! case deliberately yields version (0, 0, 0), which never meets any
//! minimum-version gate and so fails open to "supported".

use vstd::prelude::*;
use vstd::slice::slice_subrange;

verus! {

/// A parsed OS version.
#[derive(Clone, Copy, PartialEq, Eq, Structural, Debug)]
pub struct Version {
    pub major: u32,
    pub minor: u32,
    pub patch: u32,
}

/// ASCII whitespace, as trimmed from the ends of the probe output.
pub open spec fn is_ws(b: u8) -> bool {
    b == 32 || b == 9 || b == 10 || b == 13
}

/// ASCII decimal digit.
pub open spec fn is_digit(b: u8) -> bool {
    48 <= b <= 57
}

pub open spec fn all_digits(s: Seq<u8>) -> bool {
    forall|i: int| 0 <= i < s.len() ==> #[trigger] is_digit(s[i])
}

/// `s` with leading ASCII whitespace removed.
pub open spec fn trim_front(s: Seq<u8>) -> Seq<u8>
    decreases s.len(),
{
    if s.len() > 0 && is_ws(s[0]) {
        trim_front(s.drop_first())
    } else {
        s
    }
}

/// `s` with trailing ASCII whitespace removed.
pub open spec fn trim_back(s: Seq<u8>) -> Seq<u8>
    decreases s.len(),
{
    if s.len() > 0 && is_ws(s.last()) {
        trim_back(s.drop_last())
    } else {
        s
    }
}

/// `s` with ASCII whitespace removed from both ends.
pub open spec fn trimmed(s: Seq<u8>) -> Seq<u8> {
    trim_back(trim_front(s))
}

/// The number denoted by a sequence of decimal digits, most significant
/// first. Meaningful only when `all_digits(s)`.
pub open spec fn digits_value(s: Seq<u8>) -> int
    decreases s.len(),
{
    if s.len() == 0 {
        0
    } else {
        digits_value(s.drop_last()) * 10 + (s.last() - 48)
    }
}

/// The value of one dot-separated component: its digits read as a decimal
/// number if the component is nonempty, all digits, and fits in `u32`;
/// otherwise 0.
pub open spec fn component_value(s: Seq<u8>) -> u32 {
    if s.len() > 0 && all_digits(s) && digits_value(s) <= u32::MAX {
        digits_value(s) as u32
    } else {
        0
    }
}

/// The index of the first `.` at or after `from`, or `s.len()` if there is
/// none.
pub open spec fn first_dot_from(s: Seq<u8>, from: int) -> int
    decreases s.len() - from,
{
    if from < 0 || from >= s.len() {
        s.len() as int
    } else if s[from] == 46 {
        from
    } else {
        first_dot_from(s, from + 1)
    }
}

/// The (major, minor, patch) triple denoted by `s`: the values of its first
/// three dot-separated components, 0 for each missing one. Components past
/// the third are ignored.
pub open spec fn spec_version_of(s: Seq<u8>) -> (u32, u32, u32) {
    let e0 = first_dot_from(s, 0);
    let major = component_value(s.subrange(0, e0));
    if e0 >= s.len() {
        (major, 0, 0)
    } else {
        let e1 = first_dot_from(s, e0 + 1);
        let minor = component_value(s.subrange(e0 + 1, e1));
        if e1 >= s.len() {
            (major, minor, 0)
        } else {
            let e2 = first_dot_from(s, e1 + 1);
            (major, minor, component_value(s.subrange(e1 + 1, e2)))
        }
    }
}

proof fn lemma_first_dot_from_bounds(s: Seq<u8>, from: int)
    requires
        0 <= from <= s.len(),
    ensures
        from <= first_dot_from(s, from) <= s.len(),
        forall|i: int| from <= i < first_dot_from(s, from) ==> s[i] != 46,
        first_dot_from(s, from) < s.len() ==> s[first_dot_from(s, from)] == 46,
    decreases s.len() - from,
{
    if from < s.len() && s[from] != 46 {
        lemma_first_dot_from_bounds(s, from + 1);
    }
}

fn find_dot(s: &[u8], from: usize) -> (r: usize)
    requires
        from <= s@.len(),
    ensures
        r == first_dot_from(s@, from as int),
{
    let mut i: usize = from;
    while i < s.len()
        invariant
            from <= i <= s@.len(),
            first_dot_from(s@, from as int) == first_dot_from(s@, i as int),
        decreases s@.len() - i,
    {
        if s[i] == 46 {
            return i;
        }
        i = i + 1;
    }
    i
}

fn parse_component(s: &[u8]) -> (r: u32)
    ensures
        r == component_value(s@),
{
    if s.len() == 0 {
        return 0;
    }
    let mut i: usize = 0;
    let mut acc: u64 = 0;
    let mut over: bool = false;
    while i < s.len()
        invariant
            0 <= i <= s@.len(),
            all_digits(s@.subrange(0, i as int)),
            !over ==> acc == digits_value(s@.subrange(0, i as int)) && acc <= u32::MAX,
            over ==> digits_value(s@.subrange(0, i as int)) > u32::MAX,
        decreases s@.len() - i,
    {
        let b = s[i];
        if b < 48 || b > 57 {
            assert(!all_digits(s@)) by {
                assert(!is_digit(s@[i as int]));
            }
            return 0;
        }
        proof {
            assert(s@.subrange(0, i + 1).drop_last() =~= s@.subrange(0, i as int));
            assert(s@.subrange(0, i + 1).last() == s@[i as int]);
            assert(digits_value(s@.subrange(0, i + 1)) == digits_value(s@.subrange(0, i as int))
                * 10 + (b - 48));
            assert(all_digits(s@.subrange(0, i + 1))) by {
                assert(forall|j: int|
                    0 <= j < i ==> s@.subrange(0, i + 1)[j] == #[trigger] s@.subrange(
                        0,
                        i as int,
                    )[j]);
                assert(is_digit(s@.subrange(0, i + 1)[i as int]));
            }
        }
        if !over {
            let next: u64 = acc * 10 + ((b - 48) as u64);
            if next > 0xFFFF_FFFF {
                over = true;
            } else {
                acc = next;
            }
        } else {
            proof {
                let v = digits_value(s@.subrange(0, i as int));
                assert(digits_value(s@.subrange(0, i + 1)) == v * 10 + (b - 48));
                assert(v * 10 >= v) by {
                    assert(v > u32::MAX);
                }
            }
        }
        i = i + 1;
    }
    proof {
        assert(s@.subrange(0, s@.len() as int) =~= s@);
    }
    if over {
        0
    } else {
        acc as u32
    }
}

/// Copies `s` with ASCII whitespace trimmed from both ends.
fn trim_bytes(s: &[u8]) -> (t: Vec<u8>)
    ensures
        t@ == trimmed(s@),
{
    let n = s.len();
    proof {
        assert(s@.subrange(0, n as int) =~= s@);
    }
    let mut lo: usize = 0;
    while lo < n && (s[lo] == 32 || s[lo] == 9 || s[lo] == 10 || s[lo] == 13)
        invariant
            0 <= lo <= n == s@.len(),
            trim_front(s@) == trim_front(s@.subrange(lo as int, n as int)),
        decreases n - lo,
    {
        proof {
            assert(s@.subrange(lo as int, n as int).drop_first() =~= s@.subrange(
                lo + 1,
                n as int,
            ));
        }
        lo = lo + 1;
    }
    proof {
        if lo < n {
            assert(trim_front(s@.subrange(lo as int, n as int)) == s@.subrange(
                lo as int,
                n as int,
            ));
        } else {
            assert(s@.subrange(lo as int, n as int) =~= Seq::<u8>::empty());
        }
        assert(trim_front(s@) == s@.subrange(lo as int, n as int));
    }
    let mut hi: usize = n;
    while hi > lo && (s[hi - 1] == 32 || s[hi - 1] == 9 || s[hi - 1] == 10 || s[hi - 1] == 13)
        invariant
            lo <= hi <= n == s@.len(),
            trim_front(s@) == s@.subrange(lo as int, n as int),
            trim_back(s@.subrange(lo as int, n as int)) == trim_back(
                s@.subrange(lo as int, hi as int),
            ),
        decreases hi,
    {
        proof {
            assert(s@.subrange(lo as int, hi as int).drop_last() =~= s@.subrange(
                lo as int,
                hi - 1,
            ));
            assert(s@.subrange(lo as int, hi as int).last() == s@[hi - 1]);
        }
        hi = hi - 1;
    }
    proof {
        if hi > lo {
            assert(trim_back(s@.subrange(lo as int, hi as int)) == s@.subrange(
                lo as int,
                hi as int,
            ));
        } else {
            assert(s@.subrange(lo as int, hi as int) =~= Seq::<u8>::empty());
        }
        assert(trimmed(s@) == s@.subrange(lo as int, hi as int));
    }
    let mut t: Vec<u8> = Vec::new();
    let mut k: usize = lo;
    while k < hi
        invariant
            lo <= k <= hi <= s@.len(),
            t@ == s@.subrange(lo as int, k as int),
        decreases hi - k,
    {
        t.push(s[k]);
        proof {
            assert(s@.subrange(lo as int, k + 1) =~= s@.subrange(lo as int, k as int).push(
                s@[k as int],
            ));
        }
        k = k + 1;
    }
    t
}

/// Parses a dot-separated version string (as raw bytes, whitespace around it
/// ignored) into its first three numeric components; a missing or
/// unparsable component reads as 0.
pub fn parse_version(s: &[u8]) -> (v: Version)
    ensures
        (v.major, v.minor, v.patch) == spec_version_of(trimmed(s@)),
{
    let t = trim_bytes(s);
    let ts = t.as_slice();
    let n = ts.len();
    proof {
        lemma_first_dot_from_bounds(ts@, 0);
    }
    let e0 = find_dot(ts, 0);
    let major = parse_component(slice_subrange(ts, 0, e0));
    if e0 == n {
        Version { major, minor: 0, patch: 0 }
    } else {
        proof {
            lemma_first_dot_from_bounds(ts@, e0 + 1);
        }
        let e1 = find_dot(ts, e0 + 1);
        let minor = parse_component(slice_subrange(ts, e0 + 1, e1));
        if e1 == n {
            Version { major, minor, patch: 0 }
        } else {
            proof {
                lemma_first_dot_from_bounds(ts@, e1 + 1);
            }
            let e2 = find_dot(ts, e1 + 1);
            let patch = parse_component(slice_subrange(ts, e1 + 1, e2));
            Version { major, minor, patch }
        }
    }
}

/// Interprets the outcome of the version probe: `None` (the probe could not
/// be run at all) deliberately reads as version (0, 0, 0) — fail open —
/// and `Some(bytes)` as the parse of the probe's output.
pub fn version_from_probe(output: Option<Vec<u8>>) -> (v: Version)
    ensures
        output is None ==> v == (Version { major: 0, minor: 0, patch: 0 }),
        output matches Some(b) ==> (v.major, v.minor, v.patch) == spec_version_of(trimmed(b@)),
{
    match output {
        Some(b) => parse_version(b.as_slice()),
        None => Version { major: 0, minor: 0, patch: 0 },
    }
}

} // verus!
