//! The byte-level pieces of the SVG reader: substring search, tag names,
//! attribute lookup, and which attribute values spell a number.

use vstd::prelude::*;

use super::path::{digits_end, has_byte, has_sign, lemma_digits_end_forward};

verus! {

/// An ASCII whitespace byte in the sense of `u8::is_ascii_whitespace`:
/// space, tab, LF, form feed and CR.
pub open spec fn is_ascii_ws(b: u8) -> bool {
    b == 0x20 || b == 0x09 || b == 0x0A || b == 0x0C || b == 0x0D
}

/// Whether `needle` occurs in `h` at position `i`.
pub open spec fn matches_at(h: Seq<u8>, i: int, needle: Seq<u8>) -> bool {
    0 <= i && i + needle.len() <= h.len() && h.subrange(i, i + needle.len()) == needle
}

/// The first position at or after `from` where `needle` occurs.
pub open spec fn find_from(h: Seq<u8>, from: int, needle: Seq<u8>) -> Option<int>
    decreases h.len() + 1 - from,
{
    if from < 0 || from + needle.len() > h.len() {
        None
    } else if matches_at(h, from, needle) {
        Some(from)
    } else {
        find_from(h, from + 1, needle)
    }
}

/// The first position at or after `from` that holds `b`.
pub open spec fn find_byte(h: Seq<u8>, from: int, b: u8) -> Option<int>
    decreases h.len() - from,
{
    if from < 0 || from >= h.len() {
        None
    } else if h[from] == b {
        Some(from)
    } else {
        find_byte(h, from + 1, b)
    }
}

/// A found occurrence is at or after where the search began, and really
/// is an occurrence.
pub proof fn lemma_find_from(h: Seq<u8>, from: int, needle: Seq<u8>)
    ensures
        find_from(h, from, needle) matches Some(i) ==> from <= i && matches_at(h, i, needle),
    decreases h.len() + 1 - from,
{
    if !(from < 0 || from + needle.len() > h.len()) && !matches_at(h, from, needle) {
        lemma_find_from(h, from + 1, needle);
    }
}

/// A found byte is at or after where the search began, inside the data,
/// and is the byte searched for.
pub proof fn lemma_find_byte(h: Seq<u8>, from: int, b: u8)
    ensures
        find_byte(h, from, b) matches Some(i) ==> from <= i < h.len() && h[i] == b,
    decreases h.len() - from,
{
    if !(from < 0 || from >= h.len()) && h[from] != b {
        lemma_find_byte(h, from + 1, b);
    }
}

/// Whether `needle` occurs in `h` at `i`, checked byte by byte.
pub fn occurs_at(h: &[u8], i: usize, needle: &[u8]) -> (r: bool)
    ensures
        r == matches_at(h@, i as int, needle@),
{
    let hl = h.len();
    if needle.len() > hl || i > hl - needle.len() {
        return false;
    }
    let mut k: usize = 0;
    while k < needle.len()
        invariant
            hl == h@.len(),
            i + needle@.len() <= h@.len(),
            0 <= k <= needle@.len(),
            forall|j: int| 0 <= j < k ==> h@[i + j] == needle@[j],
        decreases needle@.len() - k,
    {
        if h[i + k] != needle[k] {
            assert(h@.subrange(i as int, i + needle@.len())[k as int] != needle@[k as int]);
            return false;
        }
        k += 1;
    }
    assert(h@.subrange(i as int, i + needle@.len()) =~= needle@);
    true
}

/// Byte-wise equality of two slices.
pub fn same_bytes(a: &[u8], b: &[u8]) -> (r: bool)
    ensures
        r == (a@ == b@),
{
    if a.len() != b.len() {
        return false;
    }
    let r = occurs_at(a, 0, b);
    proof {
        assert(a@.subrange(0, b@.len() as int) =~= a@);
    }
    r
}

/// The first occurrence of `needle` at or after `from`.
pub fn find(h: &[u8], from: usize, needle: &[u8]) -> (r: Option<usize>)
    ensures
        r matches Some(i) ==> find_from(h@, from as int, needle@) == Some(i as int),
        r is None ==> find_from(h@, from as int, needle@) is None,
        r matches Some(i) ==> i + needle@.len() <= h@.len(),
{
    let hl = h.len();
    if needle.len() > hl {
        return None;
    }
    let last = hl - needle.len();
    let mut i = from;
    while i <= last
        invariant
            hl == h@.len(),
            last + needle@.len() == hl,
            from <= i,
            find_from(h@, from as int, needle@) == find_from(h@, i as int, needle@),
        decreases last + 1 - i,
    {
        if occurs_at(h, i, needle) {
            return Some(i);
        }
        if i == last {
            assert(find_from(h@, i + 1, needle@) is None);
            return None;
        }
        i += 1;
    }
    None
}

/// The first position at or after `from` that holds `b`.
pub fn find_byte_from(h: &[u8], from: usize, b: u8) -> (r: Option<usize>)
    ensures
        r matches Some(i) ==> find_byte(h@, from as int, b) == Some(i as int),
        r is None ==> find_byte(h@, from as int, b) is None,
{
    let mut i = from;
    while i < h.len()
        invariant
            from <= i,
            find_byte(h@, from as int, b) == find_byte(h@, i as int, b),
        decreases h@.len() - i,
    {
        if h[i] == b {
            return Some(i);
        }
        i += 1;
    }
    None
}

/// Where a tag's name ends: the first ASCII whitespace or `/` in the body,
/// or the end of the body.
pub open spec fn tag_name_end(body: Seq<u8>) -> int {
    tag_name_end_from(body, 0)
}

/// The first position at or after `p` holding ASCII whitespace or `/`.
pub open spec fn tag_name_end_from(body: Seq<u8>, p: int) -> int
    decreases body.len() - p,
{
    if p < 0 || p >= body.len() {
        if p < 0 {
            0
        } else {
            body.len() as int
        }
    } else if is_ascii_ws(body[p]) || body[p] == 0x2F {
        p
    } else {
        tag_name_end_from(body, p + 1)
    }
}

/// The end of a tag's name within its body.
pub fn tag_name(body: &[u8]) -> (end: usize)
    ensures
        end == tag_name_end(body@),
        end <= body@.len(),
{
    let mut p: usize = 0;
    while p < body.len()
        invariant
            p <= body@.len(),
            tag_name_end(body@) == tag_name_end_from(body@, p as int),
        decreases body@.len() - p,
    {
        let b = body[p];
        if b == 0x20 || b == 0x09 || b == 0x0A || b == 0x0C || b == 0x0D || b == 0x2F {
            return p;
        }
        p += 1;
    }
    p
}

/// Where the value of an attribute lies in a tag body: the first
/// occurrence of `name="` that starts the body or follows ASCII
/// whitespace, up to the next `"`. `None` when there is no such
/// occurrence, or when its value is never closed.
pub open spec fn attr_from(body: Seq<u8>, pattern: Seq<u8>, from: int) -> Option<(int, int)>
    decreases body.len() + 1 - from,
{
    match find_from(body, from, pattern) {
        None => None,
        Some(abs) => if abs == 0 || (abs > 0 && is_ascii_ws(body[abs - 1])) {
            let start = abs + pattern.len();
            match find_byte(body, start, 0x22) {
                Some(end) => Some((start, end)),
                None => None,
            }
        } else {
            proof {
                lemma_find_from(body, from, pattern);
            }
            if from <= abs <= body.len() {
                attr_from(body, pattern, abs + 1)
            } else {
                None
            }
        },
    }
}

/// The span of an attribute's value within a tag body.
pub open spec fn attr_span(body: Seq<u8>, pattern: Seq<u8>) -> Option<(int, int)> {
    attr_from(body, pattern, 0)
}

/// A found value lies inside the body.
pub proof fn lemma_attr_from(body: Seq<u8>, pattern: Seq<u8>, from: int)
    requires
        from >= 0,
    ensures
        attr_from(body, pattern, from) matches Some((a, b)) ==> 0 <= a <= b < body.len(),
    decreases body.len() + 1 - from,
{
    lemma_find_from(body, from, pattern);
    match find_from(body, from, pattern) {
        None => {},
        Some(abs) => {
            if abs == 0 || (abs > 0 && is_ascii_ws(body[abs - 1])) {
                lemma_find_byte(body, abs + pattern.len(), 0x22);
            } else if from <= abs <= body.len() {
                lemma_attr_from(body, pattern, abs + 1);
            }
        },
    }
}

/// Looks an attribute up in a tag body and returns the span of its value.
/// A name that merely ends another attribute's name (`x` inside `rx`) does
/// not match.
pub fn attr(body: &[u8], pattern: &[u8]) -> (r: Option<(usize, usize)>)
    requires
        pattern@.len() > 0,
    ensures
        r matches Some((a, b)) ==> attr_span(body@, pattern@) == Some((a as int, b as int)),
        r is None ==> attr_span(body@, pattern@) is None,
        r matches Some((a, b)) ==> a <= b < body@.len(),
{
    proof {
        lemma_attr_from(body@, pattern@, 0);
    }
    let bl = body.len();
    let mut from: usize = 0;
    loop
        invariant
            bl == body@.len(),
            pattern@.len() > 0,
            attr_span(body@, pattern@) == attr_from(body@, pattern@, from as int),
            from <= body@.len() + 1,
        decreases body@.len() + 1 - from,
    {
        proof {
            lemma_find_from(body@, from as int, pattern@);
            lemma_attr_from(body@, pattern@, from as int);
        }
        let abs = match find(body, from, pattern) {
            Some(abs) => abs,
            None => return None,
        };
        let b = if abs > 0 {
            body[abs - 1]
        } else {
            0
        };
        if abs == 0 || b == 0x20 || b == 0x09 || b == 0x0A || b == 0x0C || b == 0x0D {
            let start = abs + pattern.len();
            proof {
                lemma_find_byte(body@, start as int, 0x22);
            }
            return match find_byte_from(body, start, 0x22) {
                Some(end) => Some((start, end)),
                None => None,
            };
        }
        from = abs + 1;
    }
}

/// ASCII lowercase of a byte.
pub open spec fn ascii_lower(b: u8) -> u8 {
    if 0x41 <= b <= 0x5A {
        (b + 0x20) as u8
    } else {
        b
    }
}

/// Whether `r` spells `word` (given in lowercase) ignoring ASCII case.
pub open spec fn equals_ignoring_case(r: Seq<u8>, word: Seq<u8>) -> bool {
    r.len() == word.len() && forall|i: int| 0 <= i < r.len() ==> ascii_lower(r[i]) == word[i]
}

/// `inf`, `infinity` and `nan`, spelled in lowercase.
pub open spec fn word_inf() -> Seq<u8> {
    seq![0x69, 0x6E, 0x66]
}

pub open spec fn word_infinity() -> Seq<u8> {
    seq![0x69, 0x6E, 0x66, 0x69, 0x6E, 0x69, 0x74, 0x79]
}

pub open spec fn word_nan() -> Seq<u8> {
    seq![0x6E, 0x61, 0x6E]
}

/// An exponent, or nothing, from `p` to the end of `r`: `e` or `E`, an
/// optional sign, and at least one digit.
pub open spec fn exponent_rest(r: Seq<u8>, p: int) -> bool {
    p == r.len() || ((has_byte(r, p, 0x65) || has_byte(r, p, 0x45)) && {
        let q = if has_sign(r, p + 1) {
            p + 2
        } else {
            p + 1
        };
        digits_end(r, q) > q && digits_end(r, q) == r.len()
    })
}

/// A decimal number: digits with an optional fraction, at least one digit
/// in the two together, then an optional exponent.
pub open spec fn decimal_literal(r: Seq<u8>) -> bool {
    let d1 = digits_end(r, 0);
    if has_byte(r, d1, 0x2E) {
        let d2 = digits_end(r, d1 + 1);
        (d1 > 0 || d2 > d1 + 1) && exponent_rest(r, d2)
    } else {
        d1 > 0 && exponent_rest(r, d1)
    }
}

/// The strings the standard library reads as an `f32`: an optional sign,
/// then `inf`, `infinity` or `nan` in any case, or a decimal number.
pub open spec fn float_literal(b: Seq<u8>) -> bool {
    let a: int = if has_sign(b, 0) {
        1
    } else {
        0
    };
    let r = b.subrange(a, b.len() as int);
    equals_ignoring_case(r, word_inf()) || equals_ignoring_case(r, word_infinity())
        || equals_ignoring_case(r, word_nan()) || decimal_literal(r)
}

/// Whether `r[from..]` spells `word` ignoring ASCII case.
fn spells_ignoring_case(r: &[u8], from: usize, word: &[u8]) -> (ok: bool)
    requires
        from <= r@.len(),
    ensures
        ok == equals_ignoring_case(r@.subrange(from as int, r@.len() as int), word@),
{
    let ghost rest = r@.subrange(from as int, r@.len() as int);
    let rl = r.len();
    if rl - from != word.len() {
        return false;
    }
    let mut i: usize = 0;
    while i < word.len()
        invariant
            rl == r@.len(),
            r@.len() - from == word@.len(),
            rest == r@.subrange(from as int, r@.len() as int),
            0 <= i <= word@.len(),
            forall|j: int| 0 <= j < i ==> ascii_lower(rest[j]) == word@[j],
        decreases word@.len() - i,
    {
        let b = r[from + i];
        let lower = if 0x41 <= b && b <= 0x5A {
            b + 0x20
        } else {
            b
        };
        if lower != word[i] {
            return false;
        }
        i += 1;
    }
    true
}

/// The first position at or after `p` that is not a digit.
fn skip_digits(r: &[u8], p: usize) -> (e: usize)
    requires
        p <= r@.len(),
    ensures
        e == digits_end(r@, p as int),
        e <= r@.len(),
{
    proof {
        lemma_digits_end_forward(r@, p as int);
    }
    let mut i = p;
    while i < r.len() && 0x30 <= r[i] && r[i] <= 0x39
        invariant
            p <= i <= r@.len(),
            digits_end(r@, i as int) == digits_end(r@, p as int),
        decreases r@.len() - i,
    {
        i += 1;
    }
    i
}

/// Whether position `p` of `r` holds `b`.
fn byte_at(r: &[u8], p: usize, b: u8) -> (ok: bool)
    ensures
        ok == has_byte(r@, p as int, b),
{
    p < r.len() && r[p] == b
}

/// Whether the rest of `r` from `p` is empty or an exponent.
fn exponent_ok(r: &[u8], p: usize) -> (ok: bool)
    requires
        p <= r@.len(),
    ensures
        ok == exponent_rest(r@, p as int),
{
    if p == r.len() {
        return true;
    }
    if !(byte_at(r, p, 0x65) || byte_at(r, p, 0x45)) {
        return false;
    }
    let q = if byte_at(r, p + 1, 0x2B) || byte_at(r, p + 1, 0x2D) {
        p + 2
    } else {
        p + 1
    };
    let e = skip_digits(r, q);
    e > q && e == r.len()
}

/// Whether a byte string is one the standard library reads as an `f32`.
pub fn is_float_literal(b: &[u8]) -> (ok: bool)
    ensures
        ok == float_literal(b@),
{
    let a: usize = if byte_at(b, 0, 0x2B) || byte_at(b, 0, 0x2D) {
        1
    } else {
        0
    };
    let ghost r = b@.subrange(a as int, b@.len() as int);
    let rest = &b[a..b.len()];
    assert(rest@ =~= r);
    let inf: Vec<u8> = vec![0x69, 0x6E, 0x66];
    let infinity: Vec<u8> = vec![0x69, 0x6E, 0x66, 0x69, 0x6E, 0x69, 0x74, 0x79];
    let nan: Vec<u8> = vec![0x6E, 0x61, 0x6E];
    assert(inf@ =~= word_inf());
    assert(infinity@ =~= word_infinity());
    assert(nan@ =~= word_nan());
    assert(rest@.subrange(0, rest@.len() as int) =~= rest@);
    if spells_ignoring_case(rest, 0, inf.as_slice()) || spells_ignoring_case(
        rest,
        0,
        infinity.as_slice(),
    ) || spells_ignoring_case(rest, 0, nan.as_slice()) {
        return true;
    }
    let d1 = skip_digits(rest, 0);
    if byte_at(rest, d1, 0x2E) {
        let d2 = skip_digits(rest, d1 + 1);
        (d1 > 0 || d2 > d1 + 1) && exponent_ok(rest, d2)
    } else {
        d1 > 0 && exponent_ok(rest, d1)
    }
}

/// An attribute lookup matches a whole attribute name, never the tail of a
/// longer one (`x` inside `rx`): the name starts the body or follows ASCII
/// white space, and the value runs from just after `name="` up to the next
/// quote.
pub proof fn law_attribute_lookup_matches_whole_names(body: Seq<u8>, pattern: Seq<u8>, from: int)
    requires
        from >= 0,
    ensures
        attr_from(body, pattern, from) matches Some((st, en)) ==> exists|abs: int|
            #![trigger matches_at(body, abs, pattern)]
            from <= abs && matches_at(body, abs, pattern) && st == abs + pattern.len() && (abs
                == 0 || is_ascii_ws(body[abs - 1])) && body[en] == 0x22 && find_byte(body, st, 0x22)
                == Some(en),
    decreases body.len() + 1 - from,
{
    lemma_find_from(body, from, pattern);
    match find_from(body, from, pattern) {
        None => {},
        Some(abs) => {
            if abs == 0 || (abs > 0 && is_ascii_ws(body[abs - 1])) {
                lemma_find_byte(body, abs + pattern.len(), 0x22);
            } else if from <= abs <= body.len() {
                law_attribute_lookup_matches_whole_names(body, pattern, abs + 1);
            }
        },
    }
}

} // verus!
