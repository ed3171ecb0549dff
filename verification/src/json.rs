//! Scanners for the JSON subset the wire schema uses: flat objects whose
//! values are strings (without escapes), unsigned integers, booleans and
//! null. Each executable scanner is proved equal to the spec function that
//! defines the grammar.

use vstd::prelude::*;

use crate::decimal::is_ascii_digit;

verus! {

pub open spec fn is_json_ws(c: u8) -> bool {
    c == 32 || c == 9 || c == 10 || c == 13
}

/// The first index at or after `i` holding a byte that is not JSON
/// whitespace, or the end of the input.
pub open spec fn spec_skip_ws(s: Seq<u8>, i: int) -> int
    decreases s.len() - i,
{
    if i < 0 || i >= s.len() {
        i
    } else if is_json_ws(s[i]) {
        spec_skip_ws(s, i + 1)
    } else {
        i
    }
}

pub fn skip_ws(s: &[u8], i: usize) -> (r: usize)
    requires
        i <= s@.len(),
    ensures
        r as int == spec_skip_ws(s@, i as int),
        i <= r <= s@.len(),
{
    let mut j: usize = i;
    while j < s.len() && (s[j] == 32 || s[j] == 9 || s[j] == 10 || s[j] == 13)
        invariant
            i <= j <= s@.len(),
            spec_skip_ws(s@, i as int) == spec_skip_ws(s@, j as int),
        decreases s@.len() - j,
    {
        j = j + 1;
    }
    j
}

/// The index of the closing quote of a string body starting at `j`, if the
/// body runs to a quote without an escape; escapes are not part of the
/// accepted subset.
pub open spec fn spec_string_end(s: Seq<u8>, j: int) -> Option<int>
    decreases s.len() - j,
{
    if j < 0 || j >= s.len() {
        None
    } else if s[j] == 34 {
        Some(j)
    } else if s[j] == 92 {
        None
    } else {
        spec_string_end(s, j + 1)
    }
}

/// A string token at `i`: its content and the index just past the closing
/// quote.
pub open spec fn spec_parse_string(s: Seq<u8>, i: int) -> Option<(Seq<u8>, int)> {
    if i < 0 || i >= s.len() || s[i] != 34 {
        None
    } else {
        match spec_string_end(s, i + 1) {
            Some(e) => Some((s.subrange(i + 1, e), e + 1)),
            None => None,
        }
    }
}

/// Scans a string token at `i`; returns the content range (start inclusive,
/// end exclusive).
pub fn parse_string(s: &[u8], i: usize) -> (r: Option<(usize, usize)>)
    requires
        i <= s@.len(),
    ensures
        match r {
            Some(se) => {
                &&& i < se.0 && se.0 <= se.1 < s@.len()
                &&& spec_parse_string(s@, i as int) == Some(
                    (s@.subrange(se.0 as int, se.1 as int), se.1 as int + 1),
                )
            },
            None => spec_parse_string(s@, i as int) is None,
        },
{
    if i >= s.len() {
        return None;
    }
    let c0 = s[i];
    if c0 != 34 {
        return None;
    }
    let mut j: usize = i + 1;
    while j < s.len()
        invariant
            i + 1 <= j <= s@.len(),
            i < s@.len(),
            s@[i as int] == 34,
            spec_string_end(s@, i as int + 1) == spec_string_end(s@, j as int),
        decreases s@.len() - j,
    {
        if s[j] == 34 {
            proof {
                assert(spec_string_end(s@, i as int + 1) == Some(j as int));
            }
            return Some((i + 1, j));
        }
        if s[j] == 92 {
            return None;
        }
        j = j + 1;
    }
    None
}

/// The first index at or after `j` holding a byte that is not an ASCII
/// digit, or the end of the input.
pub open spec fn spec_num_end(s: Seq<u8>, j: int) -> int
    decreases s.len() - j,
{
    if j < 0 || j >= s.len() {
        j
    } else if is_ascii_digit(s[j]) {
        spec_num_end(s, j + 1)
    } else {
        j
    }
}

pub fn num_end(s: &[u8], i: usize) -> (r: usize)
    requires
        i <= s@.len(),
    ensures
        r as int == spec_num_end(s@, i as int),
        i <= r <= s@.len(),
        forall|k: int| i <= k < r ==> is_ascii_digit(s@[k]),
        i < s@.len() && is_ascii_digit(s@[i as int]) ==> i < r,
{
    let mut j: usize = i;
    while j < s.len() && 48 <= s[j] && s[j] <= 57
        invariant
            i <= j <= s@.len(),
            spec_num_end(s@, i as int) == spec_num_end(s@, j as int),
            forall|k: int| i <= k < j ==> is_ascii_digit(s@[k]),
        decreases s@.len() - j,
    {
        j = j + 1;
    }
    j
}

/// The number denoted by a sequence of ASCII digits, most significant first.
pub open spec fn digits_val(d: Seq<u8>) -> nat
    decreases d.len(),
{
    if d.len() == 0 {
        0
    } else {
        digits_val(d.drop_last()) * 10 + (d.last() - 48) as nat
    }
}

/// Evaluates the digit range `[start, end)` of `s`; `None` when the value
/// does not fit in a `u64`.
pub fn digits_to_u64(s: &[u8], start: usize, end: usize) -> (r: Option<u64>)
    requires
        start <= end <= s@.len(),
        forall|k: int| start <= k < end ==> is_ascii_digit(s@[k]),
    ensures
        match r {
            Some(v) => digits_val(s@.subrange(start as int, end as int)) == v,
            None => digits_val(s@.subrange(start as int, end as int)) > u64::MAX,
        },
{
    let mut acc: u64 = 0;
    let mut over: bool = false;
    let ghost mut g: nat = 0;
    let mut k: usize = start;
    while k < end
        invariant
            start <= k <= end <= s@.len(),
            forall|t: int| start <= t < end ==> is_ascii_digit(s@[t]),
            g == digits_val(s@.subrange(start as int, k as int)),
            over <==> g > u64::MAX,
            !over ==> acc as nat == g,
        decreases end - k,
    {
        let c = s[k];
        proof {
            let full = s@.subrange(start as int, k as int + 1);
            assert(full.drop_last() =~= s@.subrange(start as int, k as int));
            assert(full.last() == s@[k as int]);
            g = g * 10 + (c - 48) as nat;
        }
        if !over {
            match acc.checked_mul(10) {
                Some(a10) => {
                    match a10.checked_add((c - 48) as u64) {
                        Some(a) => {
                            acc = a;
                        },
                        None => {
                            over = true;
                        },
                    }
                },
                None => {
                    over = true;
                },
            }
        }
        k = k + 1;
    }
    proof {
        assert(s@.subrange(start as int, end as int) =~= s@.subrange(start as int, k as int));
    }
    if over {
        None
    } else {
        Some(acc)
    }
}

/// A scalar JSON value, as the grammar sees it: a string's content bytes, a
/// number's digit bytes, a boolean, or null.
pub enum JsonVal {
    VStr(Seq<u8>),
    VNum(Seq<u8>),
    VBool(bool),
    VNull,
}

/// A scalar token as the scanner reports it: content ranges into the input
/// instead of copied bytes.
#[derive(Copy, Clone, Debug)]
pub enum JsonTok {
    TStr(usize, usize),
    TNum(usize, usize),
    TBool(bool),
    TNull,
}

/// The value a token stands for, read back from the input.
pub open spec fn tok_val(s: Seq<u8>, t: JsonTok) -> JsonVal {
    match t {
        JsonTok::TStr(a, b) => JsonVal::VStr(s.subrange(a as int, b as int)),
        JsonTok::TNum(a, b) => JsonVal::VNum(s.subrange(a as int, b as int)),
        JsonTok::TBool(b) => JsonVal::VBool(b),
        JsonTok::TNull => JsonVal::VNull,
    }
}

/// Token ranges lie inside the input; a number token is a non-empty run of
/// digits.
pub open spec fn tok_ranges_ok(s: Seq<u8>, t: JsonTok) -> bool {
    match t {
        JsonTok::TStr(a, b) => a <= b <= s.len(),
        JsonTok::TNum(a, b) => a < b <= s.len() && (forall|k: int|
            a <= k < b ==> is_ascii_digit(s[k])),
        JsonTok::TBool(_) => true,
        JsonTok::TNull => true,
    }
}

pub open spec fn spec_match_true(s: Seq<u8>, i: int) -> bool {
    i >= 0 && i + 4 <= s.len() && s[i] == 116 && s[i + 1] == 114 && s[i + 2] == 117 && s[i + 3]
        == 101
}

pub open spec fn spec_match_false(s: Seq<u8>, i: int) -> bool {
    i >= 0 && i + 5 <= s.len() && s[i] == 102 && s[i + 1] == 97 && s[i + 2] == 108 && s[i + 3]
        == 115 && s[i + 4] == 101
}

pub open spec fn spec_match_null(s: Seq<u8>, i: int) -> bool {
    i >= 0 && i + 4 <= s.len() && s[i] == 110 && s[i + 1] == 117 && s[i + 2] == 108 && s[i + 3]
        == 108
}

/// A scalar value token at `i` and the index just past it: a string, a run
/// of digits, `true`, `false` or `null`. Nested objects and arrays are not
/// part of the wire schema and are rejected.
pub open spec fn spec_parse_value(s: Seq<u8>, i: int) -> Option<(JsonVal, int)> {
    if i < 0 || i >= s.len() {
        None
    } else if s[i] == 34 {
        match spec_parse_string(s, i) {
            Some(p) => Some((JsonVal::VStr(p.0), p.1)),
            None => None,
        }
    } else if is_ascii_digit(s[i]) {
        Some((JsonVal::VNum(s.subrange(i, spec_num_end(s, i))), spec_num_end(s, i)))
    } else if spec_match_true(s, i) {
        Some((JsonVal::VBool(true), i + 4))
    } else if spec_match_false(s, i) {
        Some((JsonVal::VBool(false), i + 5))
    } else if spec_match_null(s, i) {
        Some((JsonVal::VNull, i + 4))
    } else {
        None
    }
}

pub fn parse_value(s: &[u8], i: usize) -> (r: Option<(JsonTok, usize)>)
    requires
        i <= s@.len(),
    ensures
        match r {
            Some(tn) => {
                &&& spec_parse_value(s@, i as int) == Some((tok_val(s@, tn.0), tn.1 as int))
                &&& i < tn.1 <= s@.len()
                &&& tok_ranges_ok(s@, tn.0)
            },
            None => spec_parse_value(s@, i as int) is None,
        },
{
    if i >= s.len() {
        return None;
    }
    let c = s[i];
    if c == 34 {
        match parse_string(s, i) {
            Some(se) => Some((JsonTok::TStr(se.0, se.1), se.1 + 1)),
            None => None,
        }
    } else if 48 <= c && c <= 57 {
        let e = num_end(s, i);
        Some((JsonTok::TNum(i, e), e))
    } else if c == 116 {
        if s.len() - i >= 4 && s[i + 1] == 114 && s[i + 2] == 117 && s[i + 3] == 101 {
            Some((JsonTok::TBool(true), i + 4))
        } else {
            None
        }
    } else if c == 102 {
        if s.len() - i >= 5 && s[i + 1] == 97 && s[i + 2] == 108 && s[i + 3] == 115 && s[i + 4]
            == 101 {
            Some((JsonTok::TBool(false), i + 5))
        } else {
            None
        }
    } else if c == 110 {
        if s.len() - i >= 4 && s[i + 1] == 117 && s[i + 2] == 108 && s[i + 3] == 108 {
            Some((JsonTok::TNull, i + 4))
        } else {
            None
        }
    } else {
        None
    }
}

} // verus!
