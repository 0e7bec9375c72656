use vstd::prelude::*;

verus! {

/// The lower-case hexadecimal digit of `n`, below sixteen.
pub open spec fn hex_digit(n: u8) -> u8 {
    if n < 10 {
        (48 + n) as u8
    } else {
        (87 + n) as u8
    }
}

/// Two lower-case hexadecimal digits per byte, the high half first.
pub open spec fn hex_of(b: Seq<u8>) -> Seq<u8> {
    Seq::new(
        2 * b.len(),
        |i: int|
            if i % 2 == 0 {
                hex_digit((b[i / 2] / 16) as u8)
            } else {
                hex_digit((b[i / 2] % 16) as u8)
            },
    )
}

pub fn hex_char(n: u8) -> (r: u8)
    requires
        n < 16,
    ensures
        r == hex_digit(n),
{
    if n < 10 {
        48 + n
    } else {
        87 + n
    }
}

/// A hexadecimal digit, in either case.
pub open spec fn is_hex_char(c: u8) -> bool {
    (48 <= c <= 57) || (97 <= c <= 102) || (65 <= c <= 70)
}

pub open spec fn hex_value(c: u8) -> int {
    if 48 <= c <= 57 {
        c - 48
    } else if 97 <= c <= 102 {
        c - 87
    } else {
        c - 55
    }
}

pub open spec fn is_space(c: u8) -> bool {
    c == 32 || c == 9 || c == 10 || c == 13
}

/// `s` without its trailing spaces, tabs and line ends.
pub open spec fn trim_end(s: Seq<u8>) -> Seq<u8>
    decreases s.len(),
{
    if s.len() > 0 && is_space(s.last()) {
        trim_end(s.drop_last())
    } else {
        s
    }
}

/// `s` without a leading `0x` or `0X`.
pub open spec fn strip_prefix(s: Seq<u8>) -> Seq<u8> {
    if s.len() >= 2 && s[0] == 48 && (s[1] == 120 || s[1] == 88) {
        s.subrange(2, s.len() as int)
    } else {
        s
    }
}

/// The hexadecimal digits of a bytecode file.
pub open spec fn digits_of(text: Seq<u8>) -> Seq<u8> {
    strip_prefix(trim_end(text))
}

/// An even number of hexadecimal digits.
pub open spec fn is_hex_text(d: Seq<u8>) -> bool {
    d.len() % 2 == 0 && forall|i: int| 0 <= i < d.len() ==> is_hex_char(#[trigger] d[i])
}

/// The bytes that pairs of digits spell, the high half first.
pub open spec fn bytes_of(d: Seq<u8>) -> Seq<u8> {
    Seq::new(d.len() / 2, |i: int| (hex_value(d[2 * i]) * 16 + hex_value(d[2 * i + 1])) as u8)
}

fn hex_char_value(c: u8) -> (r: Option<u8>)
    ensures
        r is Some <==> is_hex_char(c),
        r is Some ==> r->0 == hex_value(c) && r->0 < 16,
{
    if 48 <= c && c <= 57 {
        Some(c - 48)
    } else if 97 <= c && c <= 102 {
        Some(c - 87)
    } else if 65 <= c && c <= 70 {
        Some(c - 55)
    } else {
        None
    }
}

proof fn lemma_trim_prefix(s: Seq<u8>, e: int)
    requires
        0 <= e <= s.len(),
        forall|k: int| e <= k < s.len() ==> is_space(#[trigger] s[k]),
    ensures
        trim_end(s) == trim_end(s.subrange(0, e)),
    decreases s.len() - e,
{
    if e < s.len() {
        assert(s.drop_last() =~= s.subrange(0, s.len() - 1));
        lemma_trim_prefix(s.drop_last(), e);
        assert(s.drop_last().subrange(0, e) =~= s.subrange(0, e));
    } else {
        assert(s.subrange(0, e) =~= s);
    }
}

/// Reads a bytecode file: hexadecimal digits, optionally after `0x` and
/// before trailing white space. `None` where the digits are odd in number or
/// anything else stands among them.
pub fn decode_bytecode(text: &[u8]) -> (r: Option<Vec<u8>>)
    ensures
        r is Some <==> is_hex_text(digits_of(text@)),
        r is Some ==> r->0@ == bytes_of(digits_of(text@)),
{
    let mut end: usize = text.len();
    while end > 0 && (text[end - 1] == 32 || text[end - 1] == 9 || text[end - 1] == 10 || text[end
        - 1] == 13)
        invariant
            end <= text@.len(),
            forall|k: int| end <= k < text@.len() ==> is_space(#[trigger] text@[k]),
        decreases end,
    {
        end = end - 1;
    }
    proof {
        lemma_trim_prefix(text@, end as int);
        let t = text@.subrange(0, end as int);
        if t.len() > 0 {
            assert(!is_space(t.last()));
        }
        assert(trim_end(t) == t);
    }
    let ghost t = text@.subrange(0, end as int);
    let mut start: usize = 0;
    if end >= 2 && text[0] == 48 && (text[1] == 120 || text[1] == 88) {
        start = 2;
    }
    let ghost d = digits_of(text@);
    assert(d =~= text@.subrange(start as int, end as int));
    if (end - start) % 2 != 0 {
        return None;
    }
    let mut out: Vec<u8> = Vec::new();
    let mut i: usize = start;
    while i < end
        invariant
            start <= i <= end <= text@.len(),
            (i - start) % 2 == 0,
            (end - start) % 2 == 0,
            d == text@.subrange(start as int, end as int),
            d == digits_of(text@),
            out@.len() == (i - start) / 2,
            forall|k: int| 0 <= k < i - start ==> is_hex_char(#[trigger] d[k]),
            forall|k: int| 0 <= k < out@.len() ==> out@[k] == #[trigger] bytes_of(d)[k],
        decreases end - i,
    {
        let hi = hex_char_value(text[i]);
        let lo = hex_char_value(text[i + 1]);
        assert(d[i - start] == text@[i as int]);
        assert(d[i - start + 1] == text@[i + 1]);
        match (hi, lo) {
            (Some(h), Some(l)) => {
                let b = h * 16 + l;
                let ghost k = (i - start) / 2;
                assert(2 * k == i - start);
                assert(bytes_of(d)[k] == b);
                out.push(b);
            },
            _ => {
                assert(!is_hex_char(d[i - start]) || !is_hex_char(d[i - start + 1]));
                return None;
            },
        }
        i = i + 2;
    }
    assert(out@ =~= bytes_of(d));
    Some(out)
}

} // verus!
