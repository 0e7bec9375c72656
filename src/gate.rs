use vstd::prelude::*;
use vstd::slice::slice_subrange;

use crate::version::{
    is_digit, parse_version, spells_version, version_le, CompilerVersion, DOT,
};

verus! {

/// The newest compiler release whose default code generation the target
/// network runs: later releases emit an opcode that it does not support yet.
pub const CEILING_MAJOR: u64 = 0;

pub const CEILING_MINOR: u64 = 8;

pub const CEILING_PATCH: u64 = 19;

pub open spec fn ceiling() -> CompilerVersion {
    CompilerVersion { major: CEILING_MAJOR, minor: CEILING_MINOR, patch: CEILING_PATCH }
}

/// Why the compiler cannot be used.
#[derive(Clone, Copy, Debug, PartialEq, Eq, Structural)]
pub enum SolcError {
    /// The compiler binary could not be run.
    ToolMissing,
    /// Its output holds no version in the expected grammar.
    UnparseableOutput,
    /// It reports a version above the ceiling.
    IncompatibleVersion(CompilerVersion),
}

/// The label that precedes the version in the compiler's output: `Version: `.
pub open spec fn label_at(s: Seq<u8>, k: int) -> bool {
    0 <= k && k + 9 <= s.len() && s[k] == 86 && s[k + 1] == 101 && s[k + 2] == 114 && s[k
        + 3] == 115 && s[k + 4] == 105 && s[k + 5] == 111 && s[k + 6] == 110 && s[k + 7] == 58
        && s[k + 8] == 32
}

pub open spec fn first_label_at(s: Seq<u8>, k: int) -> bool {
    label_at(s, k) && forall|m: int| 0 <= m < k ==> !label_at(s, m)
}

pub open spec fn is_version_byte(b: u8) -> bool {
    is_digit(b) || b == DOT
}

/// `s[a..e]` is the longest run of digits and dots that starts at `a`.
pub open spec fn token_ends_at(s: Seq<u8>, a: int, e: int) -> bool {
    0 <= a <= e <= s.len() && (forall|m: int| a <= m < e ==> is_version_byte(#[trigger] s[m]))
        && (e < s.len() ==> !is_version_byte(s[e]))
}

/// The compiler's output reports `v`: the run of digits and dots right after
/// the first `Version: ` label spells `v`.
pub open spec fn reports_version(out: Seq<u8>, v: CompilerVersion) -> bool {
    exists|k: int, e: int| #[trigger] reports_at(out, k, e, v)
}

/// The label starts at `k` and the token after it ends at `e`.
pub open spec fn reports_at(out: Seq<u8>, k: int, e: int, v: CompilerVersion) -> bool {
    first_label_at(out, k) && token_ends_at(out, k + 9, e) && spells_version(
        out.subrange(k + 9, e),
        v,
    )
}

fn label_matches(s: &[u8], k: usize) -> (r: bool)
    ensures
        r == label_at(s@, k as int),
{
    if k > s.len() || s.len() - k < 9 {
        return false;
    }
    s[k] == 86 && s[k + 1] == 101 && s[k + 2] == 114 && s[k + 3] == 115 && s[k + 4] == 105 && s[k
        + 5] == 111 && s[k + 6] == 110 && s[k + 7] == 58 && s[k + 8] == 32
}

/// Finds the version that the compiler's output reports after its first
/// `Version: ` label.
pub fn reported_version(out: &[u8]) -> (r: Option<CompilerVersion>)
    ensures
        match r {
            Some(v) => reports_version(out@, v),
            None => forall|v: CompilerVersion| !reports_version(out@, v),
        },
{
    let mut k: usize = 0;
    while k < out.len() && !label_matches(out, k)
        invariant
            k <= out@.len(),
            forall|m: int| 0 <= m < k ==> !label_at(out@, m),
        decreases out@.len() - k,
    {
        k = k + 1;
    }
    if k >= out.len() {
        proof {
            assert forall|v: CompilerVersion| !reports_version(out@, v) by {
                if reports_version(out@, v) {
                    let (a, e) = choose|a: int, e: int| reports_at(out@, a, e, v);
                    assert(!label_at(out@, a));
                }
            }
        }
        return None;
    }
    assert(first_label_at(out@, k as int));
    let start = k + 9;
    let mut e: usize = start;
    while e < out.len() && (out[e] == DOT || (48 <= out[e] && out[e] <= 57))
        invariant
            start <= e <= out@.len(),
            forall|m: int| start <= m < e ==> is_version_byte(#[trigger] out@[m]),
        decreases out@.len() - e,
    {
        e = e + 1;
    }
    assert(token_ends_at(out@, start as int, e as int));
    let token = slice_subrange(out, start, e);
    let r = parse_version(token);
    proof {
        match r {
            Some(v) => {
                assert(reports_at(out@, k as int, e as int, v));
            },
            None => {
                assert forall|v: CompilerVersion| !reports_version(out@, v) by {
                    if reports_version(out@, v) {
                        let (a, b) = choose|a: int, b: int| reports_at(out@, a, b, v);
                        assert(a == k) by {
                            if a < k {
                                assert(!label_at(out@, a));
                            } else if a > k {
                                assert(!label_at(out@, k as int));
                            }
                        }
                        assert(b == e) by {
                            if b < e {
                                assert(is_version_byte(out@[b]));
                            } else if b > e {
                                assert(is_version_byte(out@[e as int]));
                            }
                        }
                    }
                }
            },
        }
    }
    r
}

/// Holds a reported version against the ceiling.
pub fn check_version(v: CompilerVersion) -> (r: Result<(), SolcError>)
    ensures
        version_le(v, ceiling()) ==> r == Ok::<(), SolcError>(()),
        !version_le(v, ceiling()) ==> r == Err::<(), SolcError>(SolcError::IncompatibleVersion(v)),
{
    let top = CompilerVersion { major: CEILING_MAJOR, minor: CEILING_MINOR, patch: CEILING_PATCH };
    if v.le(&top) {
        Ok(())
    } else {
        Err(SolcError::IncompatibleVersion(v))
    }
}

/// Decides whether the compiler can be used, from what its version query
/// printed: `None` where the binary could not be run.
pub fn check_solc(output: Option<&[u8]>) -> (r: Result<(), SolcError>)
    ensures
        output is None ==> r == Err::<(), SolcError>(SolcError::ToolMissing),
        output is Some ==> match r {
            Ok(()) => exists|v: CompilerVersion|
                reports_version(output->0@, v) && version_le(v, ceiling()),
            Err(SolcError::IncompatibleVersion(v)) => reports_version(output->0@, v) && !version_le(
                v,
                ceiling(),
            ),
            Err(SolcError::UnparseableOutput) => forall|v: CompilerVersion|
                !reports_version(output->0@, v),
            Err(SolcError::ToolMissing) => false,
        },
{
    match output {
        None => Err(SolcError::ToolMissing),
        Some(out) => match reported_version(out) {
            None => Err(SolcError::UnparseableOutput),
            Some(v) => check_version(v),
        },
    }
}

} // verus!
