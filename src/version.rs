use vstd::prelude::*;

verus! {

/// A semantic version `major.minor.patch` as reported by the compiler.
#[derive(Clone, Copy, Debug, PartialEq, Eq, Structural)]
pub struct CompilerVersion {
    pub major: u64,
    pub minor: u64,
    pub patch: u64,
}

pub const DOT: u8 = 46;

/// Lexicographic order on versions.
pub open spec fn version_le(a: CompilerVersion, b: CompilerVersion) -> bool {
    a.major < b.major || (a.major == b.major && (a.minor < b.minor || (a.minor == b.minor
        && a.patch <= b.patch)))
}

pub open spec fn is_digit(b: u8) -> bool {
    48 <= b && b <= 57
}

/// A non-empty run of ASCII decimal digits.
pub open spec fn is_numeral(s: Seq<u8>) -> bool {
    s.len() > 0 && forall|i: int| 0 <= i < s.len() ==> is_digit(#[trigger] s[i])
}

/// The value of a run of decimal digits, most significant first.
pub open spec fn numeral_value(s: Seq<u8>) -> nat
    decreases s.len(),
{
    if s.len() == 0 {
        0
    } else {
        numeral_value(s.drop_last()) * 10 + (s.last() as int - 48) as nat
    }
}

/// `s` splits at the dots `i` and `j` into three numerals that spell `v`.
pub open spec fn splits_at(s: Seq<u8>, i: int, j: int, v: CompilerVersion) -> bool {
    0 < i && i < j && j + 1 < s.len() && s[i] == DOT && s[j] == DOT && is_numeral(
        s.subrange(0, i),
    ) && is_numeral(s.subrange(i + 1, j)) && is_numeral(s.subrange(j + 1, s.len() as int))
        && numeral_value(s.subrange(0, i)) == v.major && numeral_value(s.subrange(i + 1, j))
        == v.minor && numeral_value(s.subrange(j + 1, s.len() as int)) == v.patch
}

/// `s` is exactly three dot-separated decimal numerals whose values are those of `v`.
pub open spec fn spells_version(s: Seq<u8>, v: CompilerVersion) -> bool {
    exists|i: int, j: int| #[trigger] splits_at(s, i, j, v)
}

proof fn lemma_value_grows(s: Seq<u8>, a: int, k: int, e: int)
    requires
        0 <= a <= k <= e <= s.len(),
    ensures
        numeral_value(s.subrange(a, k)) <= numeral_value(s.subrange(a, e)),
    decreases e - k,
{
    if k < e {
        lemma_value_grows(s, a, k, e - 1);
        assert(s.subrange(a, e).drop_last() =~= s.subrange(a, e - 1));
    }
}

/// Reads the run of digits that starts at `start`: where it ends, and its value
/// if that fits in a `u64`.
fn scan_numeral(s: &[u8], start: usize) -> (r: (usize, Option<u64>))
    requires
        start <= s@.len(),
    ensures
        start <= r.0 <= s@.len(),
        forall|k: int| start <= k < r.0 ==> is_digit(#[trigger] s@[k]),
        r.0 < s@.len() ==> !is_digit(s@[r.0 as int]),
        match r.1 {
            Some(v) => v == numeral_value(s@.subrange(start as int, r.0 as int)),
            None => numeral_value(s@.subrange(start as int, r.0 as int)) > u64::MAX,
        },
{
    let mut end: usize = start;
    while end < s.len() && 48 <= s[end] && s[end] <= 57
        invariant
            start <= end <= s@.len(),
            forall|k: int| start <= k < end ==> is_digit(#[trigger] s@[k]),
        decreases s@.len() - end,
    {
        end = end + 1;
    }
    let mut value: u64 = 0;
    let mut k: usize = start;
    while k < end
        invariant
            start <= k <= end <= s@.len(),
            forall|m: int| start <= m < end ==> is_digit(#[trigger] s@[m]),
            end < s@.len() ==> !is_digit(s@[end as int]),
            value == numeral_value(s@.subrange(start as int, k as int)),
        decreases end - k,
    {
        let d = (s[k] - 48) as u64;
        assert(s@.subrange(start as int, k + 1).drop_last() =~= s@.subrange(start as int, k as int));
        match value.checked_mul(10) {
            Some(t) => match t.checked_add(d) {
                Some(u) => {
                    value = u;
                },
                None => {
                    proof {
                        lemma_value_grows(s@, start as int, k + 1, end as int);
                    }
                    return (end, None);
                },
            },
            None => {
                proof {
                    lemma_value_grows(s@, start as int, k + 1, end as int);
                }
                return (end, None);
            },
        }
        k = k + 1;
    }
    (end, Some(value))
}

proof fn lemma_run_end_unique(s: Seq<u8>, a: int, e: int, i: int)
    requires
        0 <= a <= e <= s.len(),
        a <= i < s.len(),
        forall|k: int| a <= k < e ==> is_digit(#[trigger] s[k]),
        e < s.len() ==> !is_digit(s[e]),
        is_numeral(s.subrange(a, i)) || i == a,
        !is_digit(s[i]),
    ensures
        i == e,
{
    if i < e {
        assert(is_digit(s[i]));
    } else if i > e {
        assert(s.subrange(a, i)[e - a] == s[e]);
    }
}

/// Parses text that is exactly `major.minor.patch`, each part a decimal numeral.
/// Any other text, including a part too large for a `u64`, gives `None`.
pub fn parse_version(s: &[u8]) -> (r: Option<CompilerVersion>)
    ensures
        match r {
            Some(v) => spells_version(s@, v),
            None => forall|v: CompilerVersion| !spells_version(s@, v),
        },
{
    let (i, major) = scan_numeral(s, 0);
    if i == 0 || i >= s.len() || s[i] != DOT {
        proof {
            assert forall|v: CompilerVersion| !spells_version(s@, v) by {
                if spells_version(s@, v) {
                    let (a, b) = choose|a: int, b: int| splits_at(s@, a, b, v);
                    lemma_run_end_unique(s@, 0, i as int, a);
                }
            }
        }
        return None;
    }
    let (j, minor) = scan_numeral(s, i + 1);
    if j == i + 1 || j >= s.len() || s[j] != DOT {
        proof {
            assert forall|v: CompilerVersion| !spells_version(s@, v) by {
                if spells_version(s@, v) {
                    let (a, b) = choose|a: int, b: int| splits_at(s@, a, b, v);
                    lemma_run_end_unique(s@, 0, i as int, a);
                    lemma_run_end_unique(s@, i + 1, j as int, b);
                }
            }
        }
        return None;
    }
    let (k, patch) = scan_numeral(s, j + 1);
    if k == j + 1 || k != s.len() {
        proof {
            assert forall|v: CompilerVersion| !spells_version(s@, v) by {
                if spells_version(s@, v) {
                    let (a, b) = choose|a: int, b: int| splits_at(s@, a, b, v);
                    lemma_run_end_unique(s@, 0, i as int, a);
                    lemma_run_end_unique(s@, i + 1, j as int, b);
                    let t = s@.subrange(j + 1, s@.len() as int);
                    assert(t[k - (j + 1)] == s@[k as int]);
                }
            }
        }
        return None;
    }
    match (major, minor, patch) {
        (Some(ma), Some(mi), Some(pa)) => {
            let v = CompilerVersion { major: ma, minor: mi, patch: pa };
            assert(splits_at(s@, i as int, j as int, v));
            Some(v)
        },
        _ => {
            proof {
                assert forall|v: CompilerVersion| !spells_version(s@, v) by {
                    if spells_version(s@, v) {
                        let (a, b) = choose|a: int, b: int| splits_at(s@, a, b, v);
                        lemma_run_end_unique(s@, 0, i as int, a);
                        lemma_run_end_unique(s@, i + 1, j as int, b);
                    }
                }
            }
            None
        },
    }
}

impl CompilerVersion {
    pub fn le(&self, other: &CompilerVersion) -> (r: bool)
        ensures
            r == version_le(*self, *other),
    {
        self.major < other.major || (self.major == other.major && (self.minor < other.minor || (
        self.minor == other.minor && self.patch <= other.patch)))
    }
}

} // verus!
