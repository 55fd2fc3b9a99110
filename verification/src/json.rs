//! Parsing of the upstream image-search response body.
//!
//! The body must be a JSON document whose top level is an array of objects,
//! each object carrying a `"url"` member whose value is a string.  The parser
//! accepts the standard JSON grammar: arbitrary nesting, all value kinds,
//! string escapes including `\uXXXX` with surrogate pairs, and numbers with
//! fraction and exponent parts.  String contents are decoded: escape
//! sequences are replaced by the UTF-8 encoding of the escaped scalar, and
//! all other content must be strict UTF-8 (overlong encodings and encoded
//! surrogates are rejected) and is kept as it stands.  A `"url"` member
//! that is missing, duplicated, or bound to a non-string value makes the
//! document invalid.
//!
//! The specification functions below define acceptance and the decoded
//! `"url"` values; the executable parser is proved to return exactly what
//! they say.

use vstd::prelude::*;
use vstd::utf8::encode_scalar;
use vstd::utf8::is_scalar;
use vstd::utf8::length_of_first_scalar;
use vstd::utf8::take_first_scalar;
use vstd::utf8::valid_first_scalar;

verus! {

/// JSON insignificant whitespace: space, tab, line feed, carriage return.
pub open spec fn is_json_ws(b: u8) -> bool {
    b == 0x20 || b == 0x09 || b == 0x0a || b == 0x0d
}

/// ASCII decimal digit.
pub open spec fn is_json_digit(b: u8) -> bool {
    0x30 <= b <= 0x39
}

/// First index at or after `i` holding no whitespace.
pub open spec fn spec_skip_ws(s: Seq<u8>, i: int) -> int
    decreases s.len() - i,
{
    if 0 <= i < s.len() && is_json_ws(s[i]) {
        spec_skip_ws(s, i + 1)
    } else {
        i
    }
}

/// Value of one hexadecimal digit.
pub open spec fn spec_hex_digit(b: u8) -> Option<u32> {
    if 0x30 <= b <= 0x39 {
        Some((b - 0x30) as u32)
    } else if 0x41 <= b <= 0x46 {
        Some((b - 0x41 + 10) as u32)
    } else if 0x61 <= b <= 0x66 {
        Some((b - 0x61 + 10) as u32)
    } else {
        None
    }
}

/// Value of the four hexadecimal digits at `i`.
pub open spec fn spec_hex4(s: Seq<u8>, i: int) -> Option<u32> {
    if i + 4 <= s.len() {
        match (spec_hex_digit(s[i]), spec_hex_digit(s[i + 1]), spec_hex_digit(s[i + 2]), spec_hex_digit(s[i + 3])) {
            (Some(a), Some(b), Some(c), Some(d)) => Some((a * 4096 + b * 256 + c * 16 + d) as u32),
            _ => None,
        }
    } else {
        None
    }
}

/// One escape sequence, entered just after the backslash.  Returns the UTF-8
/// bytes the escape stands for and the index after the sequence.  A high
/// surrogate must be followed by an escaped low surrogate; a lone low
/// surrogate is invalid.
pub open spec fn spec_escape(s: Seq<u8>, i: int) -> Option<(Seq<u8>, int)> {
    if 0 <= i < s.len() {
        let b = s[i];
        if b == 0x22 {
            Some((seq![0x22u8], i + 1))
        } else if b == 0x5c {
            Some((seq![0x5cu8], i + 1))
        } else if b == 0x2f {
            Some((seq![0x2fu8], i + 1))
        } else if b == 0x62 {
            Some((seq![0x08u8], i + 1))
        } else if b == 0x66 {
            Some((seq![0x0cu8], i + 1))
        } else if b == 0x6e {
            Some((seq![0x0au8], i + 1))
        } else if b == 0x72 {
            Some((seq![0x0du8], i + 1))
        } else if b == 0x74 {
            Some((seq![0x09u8], i + 1))
        } else if b == 0x75 {
            match spec_hex4(s, i + 1) {
                Some(cp) => if 0xd800 <= cp <= 0xdbff {
                    if i + 7 <= s.len() && s[i + 5] == 0x5c && s[i + 6] == 0x75 {
                        match spec_hex4(s, i + 7) {
                            Some(lo) => if 0xdc00 <= lo <= 0xdfff {
                                Some((encode_scalar((0x10000 + (cp - 0xd800) * 0x400 + (lo - 0xdc00)) as u32), i + 11))
                            } else {
                                None
                            },
                            None => None,
                        }
                    } else {
                        None
                    }
                } else if 0xdc00 <= cp <= 0xdfff {
                    None
                } else {
                    Some((encode_scalar(cp), i + 5))
                },
                None => None,
            }
        } else {
            None
        }
    } else {
        None
    }
}

/// Contents of a string literal, entered just after the opening quote.
/// Returns the decoded bytes and the index after the closing quote.
/// Unescaped control bytes below `0x20` are invalid; every other piece of
/// content outside `"` and `\` must be the strict UTF-8 encoding of one
/// Unicode scalar (overlong encodings and encoded surrogates are invalid)
/// and is taken as it stands.
pub open spec fn spec_string_body(s: Seq<u8>, i: int) -> Option<(Seq<u8>, int)>
    decreases s.len() - i,
{
    if 0 <= i < s.len() {
        let b = s[i];
        if b == 0x22 {
            Some((Seq::<u8>::empty(), i + 1))
        } else if b == 0x5c {
            match spec_escape(s, i + 1) {
                Some((piece, j)) => if i + 1 < j && j <= s.len() {
                    match spec_string_body(s, j) {
                        Some((rest, e)) => Some((piece + rest, e)),
                        None => None,
                    }
                } else {
                    None
                },
                None => None,
            }
        } else if b < 0x20 {
            None
        } else {
            let suf = s.subrange(i, s.len() as int);
            if valid_first_scalar(suf) {
                let l = length_of_first_scalar(suf);
                if 0 < l && i + l <= s.len() {
                    match spec_string_body(s, i + l) {
                        Some((rest, e)) => Some((take_first_scalar(suf) + rest, e)),
                        None => None,
                    }
                } else {
                    None
                }
            } else {
                None
            }
        }
    } else {
        None
    }
}

/// First index at or after `i` holding no decimal digit.
pub open spec fn spec_skip_digits(s: Seq<u8>, i: int) -> int
    decreases s.len() - i,
{
    if 0 <= i < s.len() && is_json_digit(s[i]) {
        spec_skip_digits(s, i + 1)
    } else {
        i
    }
}

/// Optional fraction part (`.` followed by one or more digits) at `i`.
pub open spec fn spec_frac(s: Seq<u8>, i: int) -> Option<int> {
    if i < s.len() && s[i] == 0x2e {
        if i + 1 < s.len() && is_json_digit(s[i + 1]) {
            Some(spec_skip_digits(s, i + 1))
        } else {
            None
        }
    } else {
        Some(i)
    }
}

/// Optional exponent part (`e`/`E`, optional sign, one or more digits) at `i`.
pub open spec fn spec_exp(s: Seq<u8>, i: int) -> Option<int> {
    if i < s.len() && (s[i] == 0x65 || s[i] == 0x45) {
        let j = if i + 1 < s.len() && (s[i + 1] == 0x2b || s[i + 1] == 0x2d) {
            i + 2
        } else {
            i + 1
        };
        if j < s.len() && is_json_digit(s[j]) {
            Some(spec_skip_digits(s, j))
        } else {
            None
        }
    } else {
        Some(i)
    }
}

/// A JSON number starting at `i`: optional minus, integer part without
/// leading zeroes, optional fraction, optional exponent.  Returns the index
/// after the number.
pub open spec fn spec_number(s: Seq<u8>, i: int) -> Option<int> {
    let j = if i < s.len() && s[i] == 0x2d {
        i + 1
    } else {
        i
    };
    if j < s.len() && s[j] == 0x30 {
        match spec_frac(s, j + 1) {
            Some(k) => spec_exp(s, k),
            None => None,
        }
    } else if j < s.len() && 0x31 <= s[j] <= 0x39 {
        match spec_frac(s, spec_skip_digits(s, j + 1)) {
            Some(k) => spec_exp(s, k),
            None => None,
        }
    } else {
        None
    }
}

/// What the members named `"url"` seen so far in one object amount to.
pub enum UrlField {
    /// No member named `"url"` yet.
    NoUrl,
    /// Exactly one, bound to a string with these decoded bytes.
    OneUrl(Seq<u8>),
    /// Duplicated, or bound to a value that is not a string.
    BadUrl,
}

/// `u` after one more `"url"` member with string value `v`.
pub open spec fn url_seen(u: UrlField, v: Seq<u8>) -> UrlField {
    match u {
        UrlField::NoUrl => UrlField::OneUrl(v),
        UrlField::OneUrl(_) => UrlField::BadUrl,
        UrlField::BadUrl => UrlField::BadUrl,
    }
}

/// A single JSON value starting exactly at `i` (no leading whitespace).
/// Returns the index after the value.
pub open spec fn spec_skip_value(s: Seq<u8>, i: int) -> Option<int>
    decreases s.len() - i, 0int,
{
    if 0 <= i < s.len() {
        let b = s[i];
        if b == 0x22 {
            match spec_string_body(s, i + 1) {
                Some((_, e)) => Some(e),
                None => None,
            }
        } else if b == 0x7b {
            match spec_object_body(s, i + 1, true, UrlField::NoUrl) {
                Some((_, e)) => Some(e),
                None => None,
            }
        } else if b == 0x5b {
            spec_array_body(s, i + 1, true)
        } else if b == 0x74 {
            if i + 4 <= s.len() && s[i + 1] == 0x72 && s[i + 2] == 0x75 && s[i + 3] == 0x65 {
                Some(i + 4)
            } else {
                None
            }
        } else if b == 0x66 {
            if i + 5 <= s.len() && s[i + 1] == 0x61 && s[i + 2] == 0x6c && s[i + 3] == 0x73 && s[i + 4] == 0x65 {
                Some(i + 5)
            } else {
                None
            }
        } else if b == 0x6e {
            if i + 4 <= s.len() && s[i + 1] == 0x75 && s[i + 2] == 0x6c && s[i + 3] == 0x6c {
                Some(i + 4)
            } else {
                None
            }
        } else if b == 0x2d || is_json_digit(b) {
            spec_number(s, i)
        } else {
            None
        }
    } else {
        None
    }
}

/// Inside an array, before an element: whitespace, then `]` if no element
/// came yet, or a value followed by the separator scan.
pub open spec fn spec_array_body(s: Seq<u8>, i: int, first: bool) -> Option<int>
    decreases s.len() - i, 2int,
{
    if 0 <= i < s.len() {
        if is_json_ws(s[i]) {
            spec_array_body(s, i + 1, first)
        } else if s[i] == 0x5d && first {
            Some(i + 1)
        } else {
            match spec_skip_value(s, i) {
                Some(e) => if i < e && e <= s.len() {
                    spec_array_sep(s, e)
                } else {
                    None
                },
                None => None,
            }
        }
    } else {
        None
    }
}

/// Inside an array, after an element: whitespace, then `,` or `]`.
pub open spec fn spec_array_sep(s: Seq<u8>, i: int) -> Option<int>
    decreases s.len() - i, 1int,
{
    if 0 <= i < s.len() {
        if is_json_ws(s[i]) {
            spec_array_sep(s, i + 1)
        } else if s[i] == 0x2c {
            spec_array_body(s, i + 1, false)
        } else if s[i] == 0x5d {
            Some(i + 1)
        } else {
            None
        }
    } else {
        None
    }
}

/// Inside an object, before a member: whitespace, then `}` if no member came
/// yet, or a key string.  `u` carries what the `"url"` members so far amount
/// to; the result pairs the final account with the index after `}`.
pub open spec fn spec_object_body(s: Seq<u8>, i: int, first: bool, u: UrlField) -> Option<(UrlField, int)>
    decreases s.len() - i, 2int,
{
    if 0 <= i < s.len() {
        if is_json_ws(s[i]) {
            spec_object_body(s, i + 1, first, u)
        } else if s[i] == 0x7d && first {
            Some((u, i + 1))
        } else if s[i] == 0x22 {
            match spec_string_body(s, i + 1) {
                Some((key, e)) => if i + 1 < e && e <= s.len() {
                    spec_object_colon(s, e, u, key == seq![0x75u8, 0x72u8, 0x6cu8])
                } else {
                    None
                },
                None => None,
            }
        } else {
            None
        }
    } else {
        None
    }
}

/// Inside an object, after a key: whitespace, then `:`.
pub open spec fn spec_object_colon(s: Seq<u8>, i: int, u: UrlField, is_url: bool) -> Option<(UrlField, int)>
    decreases s.len() - i, 2int,
{
    if 0 <= i < s.len() {
        if is_json_ws(s[i]) {
            spec_object_colon(s, i + 1, u, is_url)
        } else if s[i] == 0x3a {
            spec_object_value(s, i + 1, u, is_url)
        } else {
            None
        }
    } else {
        None
    }
}

/// Inside an object, after a colon: whitespace, then the member value.  A
/// string value of a `"url"` member is decoded and recorded; any other value
/// of such a member spoils the account.
pub open spec fn spec_object_value(s: Seq<u8>, i: int, u: UrlField, is_url: bool) -> Option<(UrlField, int)>
    decreases s.len() - i, 1int,
{
    if 0 <= i < s.len() {
        if is_json_ws(s[i]) {
            spec_object_value(s, i + 1, u, is_url)
        } else if is_url && s[i] == 0x22 {
            match spec_string_body(s, i + 1) {
                Some((v, e)) => if i + 1 < e && e <= s.len() {
                    spec_object_sep(s, e, url_seen(u, v))
                } else {
                    None
                },
                None => None,
            }
        } else {
            match spec_skip_value(s, i) {
                Some(e) => if i < e && e <= s.len() {
                    spec_object_sep(s, e, if is_url { UrlField::BadUrl } else { u })
                } else {
                    None
                },
                None => None,
            }
        }
    } else {
        None
    }
}

/// Inside an object, after a member value: whitespace, then `,` or `}`.
pub open spec fn spec_object_sep(s: Seq<u8>, i: int, u: UrlField) -> Option<(UrlField, int)>
    decreases s.len() - i, 1int,
{
    if 0 <= i < s.len() {
        if is_json_ws(s[i]) {
            spec_object_sep(s, i + 1, u)
        } else if s[i] == 0x2c {
            spec_object_body(s, i + 1, false, u)
        } else if s[i] == 0x7d {
            Some((u, i + 1))
        } else {
            None
        }
    } else {
        None
    }
}

/// Elements of the top-level array: each must be an object holding exactly
/// one `"url"` member, bound to a string.  Returns the decoded `"url"`
/// values in order and the index after `]`.
pub open spec fn spec_records(s: Seq<u8>, i: int, first: bool) -> Option<(Seq<Seq<u8>>, int)>
    decreases s.len() - i, 1int,
{
    if 0 <= i < s.len() {
        if is_json_ws(s[i]) {
            spec_records(s, i + 1, first)
        } else if s[i] == 0x5d && first {
            Some((Seq::<Seq<u8>>::empty(), i + 1))
        } else if s[i] == 0x7b {
            match spec_object_body(s, i + 1, true, UrlField::NoUrl) {
                Some((UrlField::OneUrl(url), e)) => if i < e && e <= s.len() {
                    match spec_records_sep(s, e) {
                        Some((rest, end)) => Some((seq![url] + rest, end)),
                        None => None,
                    }
                } else {
                    None
                },
                Some((UrlField::NoUrl, _)) => None,
                Some((UrlField::BadUrl, _)) => None,
                None => None,
            }
        } else {
            None
        }
    } else {
        None
    }
}

/// After a top-level record: whitespace, then `,` or `]`.
pub open spec fn spec_records_sep(s: Seq<u8>, i: int) -> Option<(Seq<Seq<u8>>, int)>
    decreases s.len() - i, 0int,
{
    if 0 <= i < s.len() {
        if is_json_ws(s[i]) {
            spec_records_sep(s, i + 1)
        } else if s[i] == 0x2c {
            spec_records(s, i + 1, false)
        } else if s[i] == 0x5d {
            Some((Seq::<Seq<u8>>::empty(), i + 1))
        } else {
            None
        }
    } else {
        None
    }
}

/// The whole search response: optional whitespace, a top-level array of
/// records, optional whitespace, end of input.  `Some` holds the decoded
/// `"url"` value of each record, in document order.
pub open spec fn spec_parse_search(s: Seq<u8>) -> Option<Seq<Seq<u8>>> {
    let i = spec_skip_ws(s, 0);
    if i < s.len() && s[i] == 0x5b {
        match spec_records(s, i + 1, true) {
            Some((urls, e)) => if spec_skip_ws(s, e) == s.len() {
                Some(urls)
            } else {
                None
            },
            None => None,
        }
    } else {
        None
    }
}

/// Relates a spec end-index result to an executable one.
pub open spec fn end_matches(sp: Option<int>, r: Option<usize>) -> bool {
    match (sp, r) {
        (Some(e), Some(re)) => re == e,
        (None, None) => true,
        _ => false,
    }
}

/// Relates a spec decoded-bytes result to an executable one.
pub open spec fn bytes_matches(sp: Option<(Seq<u8>, int)>, r: Option<(Vec<u8>, usize)>) -> bool {
    match (sp, r) {
        (Some((b, e)), Some((rb, re))) => rb@ == b && re == e,
        (None, None) => true,
        _ => false,
    }
}

fn skip_ws(v: &Vec<u8>, i: usize) -> (r: usize)
    requires
        i <= v.len(),
    ensures
        r == spec_skip_ws(v@, i as int),
        i <= r <= v.len(),
    decreases v@.len() - i,
{
    if i < v.len() {
        let b = v[i];
        if b == 0x20 || b == 0x09 || b == 0x0a || b == 0x0d {
            return skip_ws(v, i + 1);
        }
    }
    i
}

fn hex_digit(b: u8) -> (r: Option<u32>)
    ensures
        r == spec_hex_digit(b),
        r matches Some(x) ==> x < 16,
{
    if 0x30 <= b && b <= 0x39 {
        Some((b - 0x30) as u32)
    } else if 0x41 <= b && b <= 0x46 {
        Some((b - 0x41 + 10) as u32)
    } else if 0x61 <= b && b <= 0x66 {
        Some((b - 0x61 + 10) as u32)
    } else {
        None
    }
}

fn hex4(v: &Vec<u8>, i: usize) -> (r: Option<u32>)
    requires
        i <= v.len(),
    ensures
        r == spec_hex4(v@, i as int),
{
    if v.len() - i >= 4 {
        match (hex_digit(v[i]), hex_digit(v[i + 1]), hex_digit(v[i + 2]), hex_digit(v[i + 3])) {
            (Some(a), Some(b), Some(c), Some(d)) => Some(a * 4096 + b * 256 + c * 16 + d),
            _ => None,
        }
    } else {
        None
    }
}

/// The UTF-8 encoding of one Unicode scalar, as [`encode_scalar`] states it.
fn encode_scalar_bytes(cp: u32) -> (r: Vec<u8>)
    requires
        is_scalar(cp),
    ensures
        r@ == encode_scalar(cp),
{
    let mut out: Vec<u8> = Vec::new();
    if cp <= 0x7f {
        out.push((cp & 0x7f) as u8);
        proof {
            assert(out@ =~= encode_scalar(cp));
        }
    } else if cp <= 0x7ff {
        out.push(0xc0u8 | (((cp >> 6u32) & 0x1f) as u8));
        out.push(0x80u8 | ((cp & 0x3f) as u8));
        proof {
            assert(out@ =~= encode_scalar(cp));
        }
    } else if cp <= 0xffff {
        out.push(0xe0u8 | (((cp >> 12u32) & 0x0f) as u8));
        out.push(0x80u8 | (((cp >> 6u32) & 0x3f) as u8));
        out.push(0x80u8 | ((cp & 0x3f) as u8));
        proof {
            assert(out@ =~= encode_scalar(cp));
        }
    } else {
        out.push(0xf0u8 | (((cp >> 18u32) & 0x7) as u8));
        out.push(0x80u8 | (((cp >> 12u32) & 0x3f) as u8));
        out.push(0x80u8 | (((cp >> 6u32) & 0x3f) as u8));
        out.push(0x80u8 | ((cp & 0x3f) as u8));
        proof {
            assert(out@ =~= encode_scalar(cp));
        }
    }
    out
}

fn byte_vec(b: u8) -> (r: Vec<u8>)
    ensures
        r@ == seq![b],
{
    let mut out: Vec<u8> = Vec::new();
    out.push(b);
    proof {
        assert(out@ =~= seq![b]);
    }
    out
}

fn parse_escape(v: &Vec<u8>, i: usize) -> (r: Option<(Vec<u8>, usize)>)
    requires
        i <= v.len(),
    ensures
        bytes_matches(spec_escape(v@, i as int), r),
{
    if i >= v.len() {
        return None;
    }
    let b = v[i];
    if b == 0x22 {
        Some((byte_vec(0x22), i + 1))
    } else if b == 0x5c {
        Some((byte_vec(0x5c), i + 1))
    } else if b == 0x2f {
        Some((byte_vec(0x2f), i + 1))
    } else if b == 0x62 {
        Some((byte_vec(0x08), i + 1))
    } else if b == 0x66 {
        Some((byte_vec(0x0c), i + 1))
    } else if b == 0x6e {
        Some((byte_vec(0x0a), i + 1))
    } else if b == 0x72 {
        Some((byte_vec(0x0d), i + 1))
    } else if b == 0x74 {
        Some((byte_vec(0x09), i + 1))
    } else if b == 0x75 {
        match hex4(v, i + 1) {
            Some(cp) => {
                if 0xd800 <= cp && cp <= 0xdbff {
                    if v.len() - i >= 7 && v[i + 5] == 0x5c && v[i + 6] == 0x75 {
                        match hex4(v, i + 7) {
                            Some(lo) => {
                                if 0xdc00 <= lo && lo <= 0xdfff {
                                    let scalar: u32 = 0x10000 + (cp - 0xd800) * 0x400 + (lo - 0xdc00);
                                    Some((encode_scalar_bytes(scalar), i + 11))
                                } else {
                                    None
                                }
                            },
                            None => None,
                        }
                    } else {
                        None
                    }
                } else if 0xdc00 <= cp && cp <= 0xdfff {
                    None
                } else {
                    Some((encode_scalar_bytes(cp), i + 5))
                }
            },
            None => None,
        }
    } else {
        None
    }
}

/// Checks whether a strict UTF-8 encoding of one Unicode scalar begins at
/// `i` and returns its length in bytes.
fn first_scalar_len(v: &Vec<u8>, i: usize) -> (r: Option<usize>)
    requires
        i < v.len(),
    ensures
        (match r {
            Some(l) => valid_first_scalar(v@.subrange(i as int, v@.len() as int)) && l
                == length_of_first_scalar(v@.subrange(i as int, v@.len() as int)) && 1 <= l && i + l
                <= v.len(),
            None => !valid_first_scalar(v@.subrange(i as int, v@.len() as int)),
        }),
{
    let ghost suf: Seq<u8> = v@.subrange(i as int, v@.len() as int);
    let b0 = v[i];
    let n = v.len() - i;
    proof {
        assert(suf.len() == n);
        assert(suf[0] == b0);
    }
    if b0 <= 0x7f {
        Some(1)
    } else if 0xc0 <= b0 && b0 <= 0xdf {
        if n >= 2 && 0x80 <= v[i + 1] && v[i + 1] <= 0xbf {
            let b1 = v[i + 1];
            proof {
                assert(suf[1] == b1);
            }
            let cp: u32 = (((b0 & 0x1f) as u32) << 6u32) | ((b1 & 0x3f) as u32);
            if cp >= 0x80 {
                proof {
                    assert(((((b0 & 0x1f) as u32) << 6u32) | ((b1 & 0x3f) as u32)) <= 0x7ff)
                        by (bit_vector);
                }
                Some(2)
            } else {
                None
            }
        } else {
            None
        }
    } else if 0xe0 <= b0 && b0 <= 0xef {
        if n >= 3 && 0x80 <= v[i + 1] && v[i + 1] <= 0xbf && 0x80 <= v[i + 2] && v[i + 2] <= 0xbf {
            let b1 = v[i + 1];
            let b2 = v[i + 2];
            proof {
                assert(suf[1] == b1);
                assert(suf[2] == b2);
            }
            let cp: u32 = (((b0 & 0x0f) as u32) << 12u32) | (((b1 & 0x3f) as u32) << 6u32) | ((b2
                & 0x3f) as u32);
            if cp >= 0x800 && !(0xd800 <= cp && cp <= 0xdfff) {
                Some(3)
            } else {
                None
            }
        } else {
            None
        }
    } else if 0xf0 <= b0 && b0 <= 0xf7 {
        if n >= 4 && 0x80 <= v[i + 1] && v[i + 1] <= 0xbf && 0x80 <= v[i + 2] && v[i + 2] <= 0xbf
            && 0x80 <= v[i + 3] && v[i + 3] <= 0xbf {
            let b1 = v[i + 1];
            let b2 = v[i + 2];
            let b3 = v[i + 3];
            proof {
                assert(suf[1] == b1);
                assert(suf[2] == b2);
                assert(suf[3] == b3);
            }
            let cp: u32 = (((b0 & 0x07) as u32) << 18u32) | (((b1 & 0x3f) as u32) << 12u32) | (((b2
                & 0x3f) as u32) << 6u32) | ((b3 & 0x3f) as u32);
            if 0x10000 <= cp && cp <= 0x10ffff {
                Some(4)
            } else {
                None
            }
        } else {
            None
        }
    } else {
        None
    }
}

fn parse_string_body(v: &Vec<u8>, i: usize) -> (r: Option<(Vec<u8>, usize)>)
    requires
        i <= v.len(),
    ensures
        bytes_matches(spec_string_body(v@, i as int), r),
    decreases v@.len() - i,
{
    if i >= v.len() {
        return None;
    }
    let b = v[i];
    if b == 0x22 {
        Some((Vec::new(), i + 1))
    } else if b == 0x5c {
        match parse_escape(v, i + 1) {
            Some((piece, j)) => {
                if i + 1 < j && j <= v.len() {
                    match parse_string_body(v, j) {
                        Some((rest, e)) => {
                            let mut out = piece;
                            let mut rest2 = rest;
                            out.append(&mut rest2);
                            Some((out, e))
                        },
                        None => None,
                    }
                } else {
                    None
                }
            },
            None => None,
        }
    } else if b < 0x20 {
        None
    } else {
        let ghost suf: Seq<u8> = v@.subrange(i as int, v@.len() as int);
        match first_scalar_len(v, i) {
            Some(l) => {
                match parse_string_body(v, i + l) {
                    Some((rest, e)) => {
                        let mut out: Vec<u8> = Vec::new();
                        out.push(v[i]);
                        if l >= 2 {
                            out.push(v[i + 1]);
                        }
                        if l >= 3 {
                            out.push(v[i + 2]);
                        }
                        if l >= 4 {
                            out.push(v[i + 3]);
                        }
                        proof {
                            assert(out@ =~= take_first_scalar(suf));
                        }
                        let mut rest2 = rest;
                        let ghost rest0: Seq<u8> = rest2@;
                        out.append(&mut rest2);
                        proof {
                            assert(out@ == take_first_scalar(suf) + rest0);
                        }
                        Some((out, e))
                    },
                    None => None,
                }
            },
            None => None,
        }
    }
}

fn skip_digits(v: &Vec<u8>, i: usize) -> (r: usize)
    requires
        i <= v.len(),
    ensures
        r == spec_skip_digits(v@, i as int),
        i <= r <= v.len(),
    decreases v@.len() - i,
{
    if i < v.len() && 0x30 <= v[i] && v[i] <= 0x39 {
        skip_digits(v, i + 1)
    } else {
        i
    }
}

fn parse_frac(v: &Vec<u8>, i: usize) -> (r: Option<usize>)
    requires
        i <= v.len(),
    ensures
        end_matches(spec_frac(v@, i as int), r),
        r matches Some(k) ==> k <= v.len(),
{
    if i < v.len() && v[i] == 0x2e {
        if i + 1 < v.len() && 0x30 <= v[i + 1] && v[i + 1] <= 0x39 {
            Some(skip_digits(v, i + 1))
        } else {
            None
        }
    } else {
        Some(i)
    }
}

fn parse_exp(v: &Vec<u8>, i: usize) -> (r: Option<usize>)
    requires
        i <= v.len(),
    ensures
        end_matches(spec_exp(v@, i as int), r),
        r matches Some(k) ==> k <= v.len(),
{
    if i < v.len() && (v[i] == 0x65 || v[i] == 0x45) {
        let j: usize = if i + 1 < v.len() && (v[i + 1] == 0x2b || v[i + 1] == 0x2d) {
            i + 2
        } else {
            i + 1
        };
        if j < v.len() && 0x30 <= v[j] && v[j] <= 0x39 {
            Some(skip_digits(v, j))
        } else {
            None
        }
    } else {
        Some(i)
    }
}

fn parse_number(v: &Vec<u8>, i: usize) -> (r: Option<usize>)
    requires
        i <= v.len(),
    ensures
        end_matches(spec_number(v@, i as int), r),
        r matches Some(k) ==> k <= v.len(),
{
    let j: usize = if i < v.len() && v[i] == 0x2d {
        i + 1
    } else {
        i
    };
    if j < v.len() && v[j] == 0x30 {
        match parse_frac(v, j + 1) {
            Some(k) => parse_exp(v, k),
            None => None,
        }
    } else if j < v.len() && 0x31 <= v[j] && v[j] <= 0x39 {
        let d = skip_digits(v, j + 1);
        match parse_frac(v, d) {
            Some(k) => parse_exp(v, k),
            None => None,
        }
    } else {
        None
    }
}

/// Executable account of the `"url"` members seen so far in one object.
pub enum UrlAcc {
    NoUrl,
    OneUrl(Vec<u8>),
    BadUrl,
}

/// The [`UrlField`] an executable account stands for.
pub open spec fn acc_view(u: UrlAcc) -> UrlField {
    match u {
        UrlAcc::NoUrl => UrlField::NoUrl,
        UrlAcc::OneUrl(b) => UrlField::OneUrl(b@),
        UrlAcc::BadUrl => UrlField::BadUrl,
    }
}

/// Relates a spec object-scan result to an executable one.
pub open spec fn obj_matches(sp: Option<(UrlField, int)>, r: Option<(UrlAcc, usize)>) -> bool {
    match (sp, r) {
        (Some((u, e)), Some((ru, re))) => acc_view(ru) == u && re == e,
        (None, None) => true,
        _ => false,
    }
}

fn skip_value(v: &Vec<u8>, i: usize) -> (r: Option<usize>)
    requires
        i <= v.len(),
    ensures
        end_matches(spec_skip_value(v@, i as int), r),
    decreases v@.len() - i, 0int,
{
    if i >= v.len() {
        return None;
    }
    let b = v[i];
    if b == 0x22 {
        match parse_string_body(v, i + 1) {
            Some((_, e)) => Some(e),
            None => None,
        }
    } else if b == 0x7b {
        match object_body(v, i + 1, true, UrlAcc::NoUrl) {
            Some((_, e)) => Some(e),
            None => None,
        }
    } else if b == 0x5b {
        array_body(v, i + 1, true)
    } else if b == 0x74 {
        if v.len() - i >= 4 && v[i + 1] == 0x72 && v[i + 2] == 0x75 && v[i + 3] == 0x65 {
            Some(i + 4)
        } else {
            None
        }
    } else if b == 0x66 {
        if v.len() - i >= 5 && v[i + 1] == 0x61 && v[i + 2] == 0x6c && v[i + 3] == 0x73 && v[i + 4] == 0x65 {
            Some(i + 5)
        } else {
            None
        }
    } else if b == 0x6e {
        if v.len() - i >= 4 && v[i + 1] == 0x75 && v[i + 2] == 0x6c && v[i + 3] == 0x6c {
            Some(i + 4)
        } else {
            None
        }
    } else if b == 0x2d || (0x30 <= b && b <= 0x39) {
        parse_number(v, i)
    } else {
        None
    }
}

fn array_body(v: &Vec<u8>, i: usize, first: bool) -> (r: Option<usize>)
    requires
        i <= v.len(),
    ensures
        end_matches(spec_array_body(v@, i as int, first), r),
    decreases v@.len() - i, 2int,
{
    if i >= v.len() {
        return None;
    }
    let b = v[i];
    if b == 0x20 || b == 0x09 || b == 0x0a || b == 0x0d {
        array_body(v, i + 1, first)
    } else if b == 0x5d && first {
        Some(i + 1)
    } else {
        match skip_value(v, i) {
            Some(e) => {
                if i < e && e <= v.len() {
                    array_sep(v, e)
                } else {
                    None
                }
            },
            None => None,
        }
    }
}

fn array_sep(v: &Vec<u8>, i: usize) -> (r: Option<usize>)
    requires
        i <= v.len(),
    ensures
        end_matches(spec_array_sep(v@, i as int), r),
    decreases v@.len() - i, 1int,
{
    if i >= v.len() {
        return None;
    }
    let b = v[i];
    if b == 0x20 || b == 0x09 || b == 0x0a || b == 0x0d {
        array_sep(v, i + 1)
    } else if b == 0x2c {
        array_body(v, i + 1, false)
    } else if b == 0x5d {
        Some(i + 1)
    } else {
        None
    }
}

fn object_body(v: &Vec<u8>, i: usize, first: bool, u: UrlAcc) -> (r: Option<(UrlAcc, usize)>)
    requires
        i <= v.len(),
    ensures
        obj_matches(spec_object_body(v@, i as int, first, acc_view(u)), r),
    decreases v@.len() - i, 2int,
{
    if i >= v.len() {
        return None;
    }
    let b = v[i];
    if b == 0x20 || b == 0x09 || b == 0x0a || b == 0x0d {
        object_body(v, i + 1, first, u)
    } else if b == 0x7d && first {
        Some((u, i + 1))
    } else if b == 0x22 {
        match parse_string_body(v, i + 1) {
            Some((key, e)) => {
                if i + 1 < e && e <= v.len() {
                    let is_url = key.len() == 3 && key[0] == 0x75 && key[1] == 0x72 && key[2] == 0x6c;
                    proof {
                        let target = seq![0x75u8, 0x72u8, 0x6cu8];
                        if key@ == target {
                            assert(key@.len() == 3);
                            assert(key@[0] == 0x75u8);
                            assert(key@[1] == 0x72u8);
                            assert(key@[2] == 0x6cu8);
                        }
                        if is_url {
                            assert(key@ =~= target);
                        }
                    }
                    object_colon(v, e, u, is_url)
                } else {
                    None
                }
            },
            None => None,
        }
    } else {
        None
    }
}

fn object_colon(v: &Vec<u8>, i: usize, u: UrlAcc, is_url: bool) -> (r: Option<(UrlAcc, usize)>)
    requires
        i <= v.len(),
    ensures
        obj_matches(spec_object_colon(v@, i as int, acc_view(u), is_url), r),
    decreases v@.len() - i, 2int,
{
    if i >= v.len() {
        return None;
    }
    let b = v[i];
    if b == 0x20 || b == 0x09 || b == 0x0a || b == 0x0d {
        object_colon(v, i + 1, u, is_url)
    } else if b == 0x3a {
        object_value(v, i + 1, u, is_url)
    } else {
        None
    }
}

fn object_value(v: &Vec<u8>, i: usize, u: UrlAcc, is_url: bool) -> (r: Option<(UrlAcc, usize)>)
    requires
        i <= v.len(),
    ensures
        obj_matches(spec_object_value(v@, i as int, acc_view(u), is_url), r),
    decreases v@.len() - i, 1int,
{
    if i >= v.len() {
        return None;
    }
    let b = v[i];
    if b == 0x20 || b == 0x09 || b == 0x0a || b == 0x0d {
        object_value(v, i + 1, u, is_url)
    } else if is_url && b == 0x22 {
        match parse_string_body(v, i + 1) {
            Some((val, e)) => {
                if i + 1 < e && e <= v.len() {
                    let nu = match u {
                        UrlAcc::NoUrl => UrlAcc::OneUrl(val),
                        UrlAcc::OneUrl(_) => UrlAcc::BadUrl,
                        UrlAcc::BadUrl => UrlAcc::BadUrl,
                    };
                    object_sep(v, e, nu)
                } else {
                    None
                }
            },
            None => None,
        }
    } else {
        match skip_value(v, i) {
            Some(e) => {
                if i < e && e <= v.len() {
                    object_sep(v, e, if is_url { UrlAcc::BadUrl } else { u })
                } else {
                    None
                }
            },
            None => None,
        }
    }
}

fn object_sep(v: &Vec<u8>, i: usize, u: UrlAcc) -> (r: Option<(UrlAcc, usize)>)
    requires
        i <= v.len(),
    ensures
        obj_matches(spec_object_sep(v@, i as int, acc_view(u)), r),
    decreases v@.len() - i, 1int,
{
    if i >= v.len() {
        return None;
    }
    let b = v[i];
    if b == 0x20 || b == 0x09 || b == 0x0a || b == 0x0d {
        object_sep(v, i + 1, u)
    } else if b == 0x2c {
        object_body(v, i + 1, false, u)
    } else if b == 0x7d {
        Some((u, i + 1))
    } else {
        None
    }
}

/// Relates a spec record-list result to an executable one.
pub open spec fn urls_matches(sp: Option<(Seq<Seq<u8>>, int)>, r: Option<(Vec<Vec<u8>>, usize)>) -> bool {
    match (sp, r) {
        (Some((u, e)), Some((ru, re))) => ru.deep_view() == u && re == e,
        (None, None) => true,
        _ => false,
    }
}

fn parse_records(v: &Vec<u8>, i: usize, first: bool) -> (r: Option<(Vec<Vec<u8>>, usize)>)
    requires
        i <= v.len(),
    ensures
        urls_matches(spec_records(v@, i as int, first), r),
        r matches Some(p) ==> p.1 <= v.len(),
    decreases v@.len() - i, 1int,
{
    if i >= v.len() {
        return None;
    }
    let b = v[i];
    if b == 0x20 || b == 0x09 || b == 0x0a || b == 0x0d {
        parse_records(v, i + 1, first)
    } else if b == 0x5d && first {
        let out: Vec<Vec<u8>> = Vec::new();
        proof {
            assert(out.deep_view() =~= Seq::<Seq<u8>>::empty());
        }
        Some((out, i + 1))
    } else if b == 0x7b {
        match object_body(v, i + 1, true, UrlAcc::NoUrl) {
            Some((UrlAcc::OneUrl(url), e)) => {
                if i < e && e <= v.len() {
                    match records_sep(v, e) {
                        Some((rest, end)) => {
                            let ghost u0: Seq<u8> = url@;
                            let mut out: Vec<Vec<u8>> = Vec::new();
                            out.push(url);
                            let ghost rest0: Seq<Seq<u8>> = rest.deep_view();
                            let mut r2 = rest;
                            out.append(&mut r2);
                            proof {
                                assert forall|k: int| 0 <= k < out@.len() implies out@[k].deep_view()
                                    == (seq![u0] + rest0)[k] by {
                                }
                                assert(out.deep_view() =~= seq![u0] + rest0);
                            }
                            Some((out, end))
                        },
                        None => None,
                    }
                } else {
                    None
                }
            },
            Some((UrlAcc::NoUrl, _)) => None,
            Some((UrlAcc::BadUrl, _)) => None,
            None => None,
        }
    } else {
        None
    }
}

fn records_sep(v: &Vec<u8>, i: usize) -> (r: Option<(Vec<Vec<u8>>, usize)>)
    requires
        i <= v.len(),
    ensures
        urls_matches(spec_records_sep(v@, i as int), r),
        r matches Some(p) ==> p.1 <= v.len(),
    decreases v@.len() - i, 0int,
{
    if i >= v.len() {
        return None;
    }
    let b = v[i];
    if b == 0x20 || b == 0x09 || b == 0x0a || b == 0x0d {
        records_sep(v, i + 1)
    } else if b == 0x2c {
        parse_records(v, i + 1, false)
    } else if b == 0x5d {
        let out: Vec<Vec<u8>> = Vec::new();
        proof {
            assert(out.deep_view() =~= Seq::<Seq<u8>>::empty());
        }
        Some((out, i + 1))
    } else {
        None
    }
}

/// Decodes a search response body.  `Some` holds the decoded `"url"` value
/// of each record, in document order; `None` means the body is not a valid
/// search document.
pub fn parse_image_search(v: &Vec<u8>) -> (r: Option<Vec<Vec<u8>>>)
    ensures
        (match (spec_parse_search(v@), r) {
            (Some(u), Some(ru)) => ru.deep_view() == u,
            (None, None) => true,
            _ => false,
        }),
{
    let i = skip_ws(v, 0);
    if i < v.len() && v[i] == 0x5b {
        match parse_records(v, i + 1, true) {
            Some((urls, e)) => {
                if skip_ws(v, e) == v.len() {
                    Some(urls)
                } else {
                    None
                }
            },
            None => None,
        }
    } else {
        None
    }
}

} // verus!
