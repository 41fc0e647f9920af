//! Separators after an arc flag change nothing but positions.
//!
//! An arc flag is exactly one `0` or `1`, so path data may pack a flag
//! against the number that follows it (`a6 6 0 008 8`). Writing a separator
//! after such a flag (`a6 6 0 0 0 8 8`) reads the same segments: every
//! operand is the same, and a number's span moves by the one byte inserted
//! when it lies after the insertion. The same holds of a refusal: it is the
//! same refusal, at the moved offset.

use vstd::prelude::*;

use super::path::{
    digits_end, lemma_digits_end_forward, has_byte, has_sign, implicit_command, is_alpha, is_close,
    is_moveto, is_path_sep, lemma_number_end_forward, lemma_read_operands_advance,
    lemma_skip_seps_forward, number_end, operand_pattern, path_from, prepend, read_operand,
    read_operands, skip_seps, spec_parse_path, Operand, OperandKind, PathOutcome, SpecSegment,
};
use super::svg::SpecError;

verus! {

/// `s` with one space written at position `k`.
pub open spec fn with_separator_at(s: Seq<u8>, k: int) -> Seq<u8> {
    s.take(k) + seq![0x20u8] + s.skip(k)
}

/// Where position `x` of the data is once a byte is written at `k`.
pub open spec fn shift_at(x: int, k: int) -> int {
    if x >= k {
        x + 1
    } else {
        x
    }
}

/// An operand once a byte is written at `k`: a number's span moves with
/// the bytes it spells, a flag stays what it is.
pub open spec fn shift_operand(o: Operand, k: int) -> Operand {
    match o {
        Operand::Number { start, end } => Operand::Number {
            start: shift_at(start as int, k) as usize,
            end: shift_at(end as int, k) as usize,
        },
        Operand::Flag(b) => Operand::Flag(b),
    }
}

/// Operands once a byte is written at `k`.
pub open spec fn shift_operands(ops: Seq<Operand>, k: int) -> Seq<Operand> {
    ops.map_values(|o: Operand| shift_operand(o, k))
}

/// A refusal once a byte is written at `k`: its offset moves, nothing else.
pub open spec fn shift_error(e: SpecError, k: int) -> SpecError {
    match e {
        SpecError::MalformedNumber(q) => SpecError::MalformedNumber(shift_at(q, k)),
        SpecError::MalformedFlag(q) => SpecError::MalformedFlag(shift_at(q, k)),
        other => other,
    }
}

/// A segment once a byte is written at `k`.
pub open spec fn shift_segment(g: SpecSegment, k: int) -> SpecSegment {
    SpecSegment { command: g.command, operands: shift_operands(g.operands, k) }
}

/// What path data comes to, once a byte is written at `k`.
pub open spec fn shift_outcome(o: PathOutcome, k: int) -> PathOutcome {
    match o {
        PathOutcome::Parsed(t) => PathOutcome::Parsed(
            t.map_values(|g: SpecSegment| shift_segment(g, k)),
        ),
        PathOutcome::Refused(e) => PathOutcome::Refused(shift_error(e, k)),
        PathOutcome::Diverges => PathOutcome::Diverges,
    }
}

/// One operand read, once a byte is written at `k`.
pub open spec fn shift_read(r: Result<(Operand, int), SpecError>, k: int) -> Result<
    (Operand, int),
    SpecError,
> {
    match r {
        Ok((o, e)) => Ok((shift_operand(o, k), shift_at(e, k))),
        Err(x) => Err(shift_error(x, k)),
    }
}

/// Several operands read, once a byte is written at `k`.
pub open spec fn shift_reads(r: Result<(Seq<Operand>, int), SpecError>, k: int) -> Result<
    (Seq<Operand>, int),
    SpecError,
> {
    match r {
        Ok((ops, e)) => Ok((shift_operands(ops, k), shift_at(e, k))),
        Err(x) => Err(shift_error(x, k)),
    }
}

/// `t` is `s` with a separator written at `k`.
pub open spec fn spaced(s: Seq<u8>, t: Seq<u8>, k: int) -> bool {
    &&& 0 <= k <= s.len()
    &&& t.len() == s.len() + 1
    &&& forall|i: int| 0 <= i < k ==> #[trigger] t[i] == s[i]
    &&& t[k] == 0x20u8
    &&& forall|i: int| k <= i < s.len() ==> t[i + 1] == #[trigger] s[i]
}

proof fn lemma_spaced(s: Seq<u8>, k: int)
    requires
        0 <= k <= s.len(),
    ensures
        spaced(s, with_separator_at(s, k), k),
{
    let t = with_separator_at(s, k);
    assert forall|i: int| k <= i < s.len() implies t[i + 1] == #[trigger] s[i] by {
        assert(t[i + 1] == s.skip(k)[i - k]);
    }
}

// ---- after the separator: everything moves by one ----

proof fn lemma_skip_seps_after(s: Seq<u8>, t: Seq<u8>, k: int, r: int)
    requires
        spaced(s, t, k),
        k <= r,
    ensures
        skip_seps(t, r + 1) == skip_seps(s, r) + 1,
    decreases s.len() - r,
{
    if r < s.len() {
        assert(t[r + 1] == s[r]);
        if is_path_sep(s[r]) {
            lemma_skip_seps_after(s, t, k, r + 1);
        }
    }
}

proof fn lemma_digits_end_after(s: Seq<u8>, t: Seq<u8>, k: int, r: int)
    requires
        spaced(s, t, k),
        k <= r,
    ensures
        digits_end(t, r + 1) == digits_end(s, r) + 1,
    decreases s.len() - r,
{
    if r < s.len() {
        assert(t[r + 1] == s[r]);
        if 0x30 <= s[r] <= 0x39 {
            lemma_digits_end_after(s, t, k, r + 1);
        }
    }
}

proof fn lemma_has_byte_after(s: Seq<u8>, t: Seq<u8>, k: int, r: int, b: u8)
    requires
        spaced(s, t, k),
        k <= r,
    ensures
        has_byte(t, r + 1, b) == has_byte(s, r, b),
        has_sign(t, r + 1) == has_sign(s, r),
{
    if r < s.len() {
        assert(t[r + 1] == s[r]);
    }
}

proof fn lemma_number_end_after(s: Seq<u8>, t: Seq<u8>, k: int, r: int)
    requires
        spaced(s, t, k),
        k <= r,
    ensures
        number_end(t, r + 1) == (match number_end(s, r) {
            Some(e) => Some(e + 1),
            None => None,
        }),
{
    lemma_has_byte_after(s, t, k, r, 0x2B);
    let a = if has_sign(s, r) {
        r + 1
    } else {
        r
    };
    lemma_digits_end_after(s, t, k, a);
    let b = digits_end(s, a);
    lemma_digits_end_forward(s, a);
    lemma_has_byte_after(s, t, k, b, 0x2E);
    lemma_digits_end_after(s, t, k, b + 1);
    let c = if has_byte(s, b, 0x2E) {
        digits_end(s, b + 1)
    } else {
        b
    };
    lemma_digits_end_forward(s, b + 1);
    lemma_has_byte_after(s, t, k, c, 0x65);
    lemma_has_byte_after(s, t, k, c, 0x45);
    lemma_has_byte_after(s, t, k, c + 1, 0x2B);
    let e = if has_sign(s, c + 1) {
        c + 2
    } else {
        c + 1
    };
    lemma_digits_end_after(s, t, k, e);
}

proof fn lemma_read_operand_after(s: Seq<u8>, t: Seq<u8>, k: int, r: int, kind: OperandKind)
    requires
        spaced(s, t, k),
        k <= r <= s.len(),
        s.len() + 2 < usize::MAX,
    ensures
        read_operand(t, r + 1, kind) == shift_read(read_operand(s, r, kind), k),
        read_operand(s, r, kind) matches Ok((_, e)) ==> r <= e <= s.len(),
{
    lemma_skip_seps_after(s, t, k, r);
    lemma_skip_seps_forward(s, r);
    let q = skip_seps(s, r);
    assert(q <= s.len());
    lemma_number_end_after(s, t, k, q);
    lemma_number_end_forward(s, q);
    if q < s.len() {
        assert(t[q + 1] == s[q]);
    }
}

proof fn lemma_read_operands_after(s: Seq<u8>, t: Seq<u8>, k: int, r: int, pattern: Seq<OperandKind>)
    requires
        spaced(s, t, k),
        k <= r <= s.len(),
        s.len() + 2 < usize::MAX,
    ensures
        read_operands(t, r + 1, pattern) == shift_reads(read_operands(s, r, pattern), k),
        read_operands(s, r, pattern) matches Ok((_, e)) ==> r <= e <= s.len(),
    decreases pattern.len(),
{
    if pattern.len() == 0 {
        assert(shift_operands(Seq::empty(), k) =~= Seq::empty());
    } else {
        lemma_read_operand_after(s, t, k, r, pattern[0]);
        match read_operand(s, r, pattern[0]) {
            Err(x) => {},
            Ok((op, e)) => {
                lemma_read_operands_after(s, t, k, e, pattern.drop_first());
                match read_operands(s, e, pattern.drop_first()) {
                    Err(x) => {},
                    Ok((rest, e2)) => {
                        assert(shift_operands(seq![op] + rest, k) =~= seq![shift_operand(op, k)]
                            + shift_operands(rest, k));
                    },
                }
            },
        }
    }
}

/// Reading path data anywhere after the separator reads the same segments,
/// moved by one byte.
proof fn lemma_path_from_after(
    s: Seq<u8>,
    t: Seq<u8>,
    k: int,
    r: int,
    cmd: Option<u8>,
    have: bool,
)
    requires
        spaced(s, t, k),
        k <= r <= s.len(),
        s.len() + 2 < usize::MAX,
    ensures
        path_from(t, r + 1, cmd, have) == shift_outcome(path_from(s, r, cmd, have), k),
    decreases s.len() - r,
{
    lemma_skip_seps_after(s, t, k, r);
    lemma_skip_seps_forward(s, r);
    assert(Seq::<SpecSegment>::empty().map_values(|x: SpecSegment| shift_segment(x, k)) =~= Seq::<
        SpecSegment,
    >::empty());
    let q = skip_seps(s, r);
    if q < s.len() {
        assert(t[q + 1] == s[q]);
        let explicit = is_alpha(s[q]);
        let c_opt = if explicit {
            Some(s[q])
        } else {
            implicit_command(cmd)
        };
        let q2 = if explicit {
            q + 1
        } else {
            q
        };
        if let Some(c) = c_opt {
            if let Some(pattern) = operand_pattern(c) {
                lemma_read_operands_after(s, t, k, q2, pattern);
                if let Ok((ops, q3)) = read_operands(s, q2, pattern) {
                    lemma_read_operands_advance(s, q2, pattern);
                    if r < q3 <= s.len() {
                        lemma_path_from_after(s, t, k, q3, Some(c), have || is_moveto(c));
                        lemma_shift_prepend(
                            SpecSegment { command: c, operands: ops },
                            path_from(s, q3, Some(c), have || is_moveto(c)),
                            k,
                        );
                    }
                }
            }
        }
    }
}

proof fn lemma_shift_prepend(g: SpecSegment, rest: PathOutcome, k: int)
    ensures
        shift_outcome(prepend(seq![g], rest), k) == prepend(
            seq![shift_segment(g, k)],
            shift_outcome(rest, k),
        ),
{
    if let PathOutcome::Parsed(t) = rest {
        assert((seq![g] + t).map_values(|x: SpecSegment| shift_segment(x, k)) =~= seq![
            shift_segment(g, k),
        ] + t.map_values(|x: SpecSegment| shift_segment(x, k)));
    }
}

// ---- before the separator: nothing changes ----

proof fn lemma_skip_seps_before(s: Seq<u8>, t: Seq<u8>, k: int, p: int)
    requires
        spaced(s, t, k),
        0 <= p,
        skip_seps(s, p) < k,
    ensures
        skip_seps(t, p) == skip_seps(s, p),
    decreases s.len() - p,
{
    lemma_skip_seps_forward(s, p);
    assert(t[p] == s[p]);
    if p < s.len() && is_path_sep(s[p]) {
        lemma_skip_seps_before(s, t, k, p + 1);
    }
}

proof fn lemma_digits_end_before(s: Seq<u8>, t: Seq<u8>, k: int, p: int)
    requires
        spaced(s, t, k),
        0 <= p,
        digits_end(s, p) < k,
    ensures
        digits_end(t, p) == digits_end(s, p),
    decreases s.len() - p,
{
    lemma_digits_end_forward(s, p);
    assert(t[p] == s[p]);
    if p < s.len() && 0x30 <= s[p] <= 0x39 {
        lemma_digits_end_before(s, t, k, p + 1);
    }
}

proof fn lemma_number_end_before(s: Seq<u8>, t: Seq<u8>, k: int, q: int, e: int)
    requires
        spaced(s, t, k),
        0 <= q < k,
        number_end(s, q) == Some(e),
        e < k,
        !has_byte(s, e, 0x65),
        !has_byte(s, e, 0x45),
    ensures
        number_end(t, q) == Some(e),
{
    assert(t[q] == s[q]);
    let a = if has_sign(s, q) {
        q + 1
    } else {
        q
    };
    lemma_digits_end_forward(s, a);
    let b = digits_end(s, a);
    lemma_digits_end_forward(s, b + 1);
    let c = if has_byte(s, b, 0x2E) {
        digits_end(s, b + 1)
    } else {
        b
    };
    let x = if has_sign(s, c + 1) {
        c + 2
    } else {
        c + 1
    };
    lemma_digits_end_forward(s, x);
    assert(c <= e);
    lemma_digits_end_before(s, t, k, a);
    assert(t[b] == s[b]);
    if has_byte(s, b, 0x2E) {
        lemma_digits_end_before(s, t, k, b + 1);
    }
    assert(t[c] == s[c]);
    if has_byte(s, c, 0x65) || has_byte(s, c, 0x45) {
        assert(c + 1 < k);
        assert(t[c + 1] == s[c + 1]);
        lemma_digits_end_before(s, t, k, x);
    }
}

/// A read that succeeds from a position within the data ends within it.
proof fn lemma_read_operands_within(s: Seq<u8>, r: int, pattern: Seq<OperandKind>)
    requires
        0 <= r <= s.len(),
    ensures
        read_operands(s, r, pattern) matches Ok((_, e)) ==> r <= e <= s.len(),
    decreases pattern.len(),
{
    if pattern.len() > 0 {
        lemma_skip_seps_forward(s, r);
        let q = skip_seps(s, r);
        lemma_number_end_forward(s, q);
        if let Ok((op, e)) = read_operand(s, r, pattern[0]) {
            lemma_read_operands_within(s, e, pattern.drop_first());
        }
    }
}

/// Reading operands that end with a flag just before the separator reads
/// the same in both spellings, and every span it reads lies before it.
proof fn lemma_read_operands_before(s: Seq<u8>, t: Seq<u8>, k: int, r: int, pattern: Seq<OperandKind>)
    requires
        spaced(s, t, k),
        0 <= r,
        pattern.len() > 0,
        pattern.last() == OperandKind::Flag,
        read_operands(s, r, pattern) matches Ok((_, e)) && e == k,
    ensures
        read_operands(t, r, pattern) == read_operands(s, r, pattern),
        shift_operands(read_operands(s, r, pattern)->Ok_0.0, k) == read_operands(
            s,
            r,
            pattern,
        )->Ok_0.0,
    decreases pattern.len(),
{
    lemma_skip_seps_forward(s, r);
    let q = skip_seps(s, r);
    let (op, e1) = read_operand(s, r, pattern[0])->Ok_0;
    let rest = pattern.drop_first();
    let (rest_ops, e2) = read_operands(s, e1, rest)->Ok_0;
    if rest.len() > 0 {
        lemma_read_operands_advance(s, e1, rest);
        assert(rest.last() == pattern.last());
    }
    assert(e1 <= k);
    match pattern[0] {
        OperandKind::Flag => {
            assert(q < k);
        },
        OperandKind::Number => {
            lemma_number_end_forward(s, q);
            assert(rest.len() > 0);
            assert(e1 < k);
            if has_byte(s, e1, 0x65) || has_byte(s, e1, 0x45) {
                assert(skip_seps(s, e1) == e1);
                assert(digits_end(s, e1) == e1);
                assert(read_operand(s, e1, rest[0]) is Err);
            }
            lemma_number_end_before(s, t, k, q, e1);
        },
    }
    lemma_skip_seps_before(s, t, k, r);
    assert(t[q] == s[q]);
    assert(read_operand(t, r, pattern[0]) == read_operand(s, r, pattern[0]));
    if rest.len() > 0 {
        lemma_read_operands_before(s, t, k, e1, rest);
    } else {
        assert(shift_operands(rest_ops, k) =~= rest_ops);
    }
    assert(read_operands(t, e1, rest) == read_operands(s, e1, rest));
    assert(read_operands(t, r, pattern) == read_operands(s, r, pattern));
    let ops = seq![op] + rest_ops;
    assert(shift_operand(op, k) == op);
    assert(shift_operands(ops, k) =~= ops) by {
        assert forall|i: int| 0 <= i < ops.len() implies shift_operands(ops, k)[i] == ops[i] by {
            if i > 0 {
                assert(ops[i] == rest_ops[i - 1]);
                assert(shift_operands(rest_ops, k)[i - 1] == rest_ops[i - 1]);
            }
        }
    }
}

/// At the separator itself, reading starts past it.
proof fn lemma_read_at_separator(t: Seq<u8>, k: int, pattern: Seq<OperandKind>)
    requires
        0 <= k < t.len(),
        t[k] == 0x20u8,
        pattern.len() > 0,
    ensures
        read_operands(t, k, pattern) == read_operands(t, k + 1, pattern),
{
    assert(skip_seps(t, k) == skip_seps(t, k + 1));
    assert(read_operand(t, k, pattern[0]) == read_operand(t, k + 1, pattern[0]));
}

/// Reading `a` then `b` is reading `a + b`.
proof fn lemma_read_operands_split(s: Seq<u8>, r: int, a: Seq<OperandKind>, b: Seq<OperandKind>)
    ensures
        read_operands(s, r, a + b) == (match read_operands(s, r, a) {
            Err(x) => Err(x),
            Ok((o1, e1)) => match read_operands(s, e1, b) {
                Err(x) => Err(x),
                Ok((o2, e2)) => Ok((o1 + o2, e2)),
            },
        }),
    decreases a.len(),
{
    if a.len() == 0 {
        assert(a + b =~= b);
        if let Ok((o2, e2)) = read_operands(s, r, b) {
            assert(Seq::<Operand>::empty() + o2 =~= o2);
        }
    } else {
        assert((a + b)[0] == a[0]);
        assert((a + b).drop_first() =~= a.drop_first() + b);
        if let Ok((op, e)) = read_operand(s, r, a[0]) {
            lemma_read_operands_split(s, e, a.drop_first(), b);
            if let Ok((o1, e1)) = read_operands(s, e, a.drop_first()) {
                if let Ok((o2, e2)) = read_operands(s, e1, b) {
                    assert(seq![op] + (o1 + o2) =~= (seq![op] + o1) + o2);
                }
            }
        }
    }
}

/// Reading an arc's operands across the separator: the part up to the
/// flag reads the same, the rest reads moved by one byte.
proof fn lemma_read_across(
    s: Seq<u8>,
    t: Seq<u8>,
    k: int,
    q2: int,
    pre: Seq<OperandKind>,
    post: Seq<OperandKind>,
)
    requires
        spaced(s, t, k),
        s.len() + 2 < usize::MAX,
        0 <= q2,
        pre.len() > 0,
        pre.last() == OperandKind::Flag,
        post.len() > 0,
        read_operands(s, q2, pre) matches Ok((_, e)) && e == k,
    ensures
        read_operands(t, q2, pre + post) == shift_reads(read_operands(s, q2, pre + post), k),
        read_operands(s, q2, pre + post) matches Ok((_, e)) ==> k <= e <= s.len(),
{
    lemma_read_operands_split(s, q2, pre, post);
    lemma_read_operands_split(t, q2, pre, post);
    lemma_read_operands_before(s, t, k, q2, pre);
    lemma_read_at_separator(t, k, post);
    lemma_read_operands_after(s, t, k, k, post);
    let o1 = read_operands(s, q2, pre)->Ok_0.0;
    if let Ok((o2, e2)) = read_operands(s, k, post) {
        assert(shift_operands(o1 + o2, k) =~= shift_operands(o1, k) + shift_operands(o2, k));
    }
}

/// Whether `k` is the position just after one of the two flags of the arc
/// segment read at `p`, with `cmd` the command in force.
pub open spec fn arc_flag_end(s: Seq<u8>, p: int, cmd: Option<u8>, k: int) -> bool {
    let n = OperandKind::Number;
    let f = OperandKind::Flag;
    let q = skip_seps(s, p);
    let explicit = is_alpha(s[q]);
    let c_opt = if explicit {
        Some(s[q])
    } else {
        implicit_command(cmd)
    };
    let q2 = if explicit {
        q + 1
    } else {
        q
    };
    &&& q < s.len()
    &&& c_opt matches Some(c) && (c == 0x41 || c == 0x61)
    &&& ((read_operands(s, q2, seq![n, n, n, f]) matches Ok((_, e)) && e == k) || (read_operands(
        s,
        q2,
        seq![n, n, n, f, f],
    ) matches Ok((_, e)) && e == k))
}

/// An arc flag may be packed against what follows it or separated from it:
/// writing a separator just after either flag of an arc reads the same
/// segments from that arc on, with the spans after the separator moved by
/// the byte written, and refuses what the packed spelling refuses, at the
/// moved offset.
pub proof fn law_a_separator_after_an_arc_flag_reads_the_same(
    s: Seq<u8>,
    p: int,
    cmd: Option<u8>,
    have: bool,
    k: int,
)
    requires
        s.len() + 2 < usize::MAX,
        0 <= p,
        arc_flag_end(s, p, cmd, k),
    ensures
        path_from(with_separator_at(s, k), p, cmd, have) == shift_outcome(
            path_from(s, p, cmd, have),
            k,
        ),
{
    let n = OperandKind::Number;
    let f = OperandKind::Flag;
    let q = skip_seps(s, p);
    lemma_skip_seps_forward(s, p);
    let explicit = is_alpha(s[q]);
    let c = if explicit {
        s[q]
    } else {
        implicit_command(cmd)->Some_0
    };
    let q2 = if explicit {
        q + 1
    } else {
        q
    };
    let arc = seq![n, n, n, f, f, n, n];
    assert(operand_pattern(c) == Some(arc));
    let four = read_operands(s, q2, seq![n, n, n, f]) matches Ok((_, e)) && e == k;
    let pre = if four {
        seq![n, n, n, f]
    } else {
        seq![n, n, n, f, f]
    };
    let post = if four {
        seq![f, n, n]
    } else {
        seq![n, n]
    };
    assert(arc =~= pre + post);
    lemma_read_operands_within(s, q2, pre);
    lemma_read_operands_advance(s, q2, pre);
    assert(q < k <= s.len());
    lemma_spaced(s, k);
    let t = with_separator_at(s, k);
    lemma_skip_seps_before(s, t, k, p);
    assert(t[q] == s[q]);
    lemma_read_across(s, t, k, q2, pre, post);
    if let Ok((ops, e2)) = read_operands(s, q2, arc) {
        lemma_path_from_after(s, t, k, e2, Some(c), have || is_moveto(c));
        lemma_shift_prepend(
            SpecSegment { command: c, operands: ops },
            path_from(s, e2, Some(c), have || is_moveto(c)),
            k,
        );
    }
}

// ---- the segments before the arc ----

/// The segment read at `p`, with `cmd` the command in force and `have`
/// whether a current point is set: the segment, where reading goes on, and
/// the command and current-point state it goes on with. `None` where
/// reading ends there, refuses, or would not move.
pub open spec fn next_segment(s: Seq<u8>, p: int, cmd: Option<u8>, have: bool) -> Option<
    (SpecSegment, int, Option<u8>, bool),
> {
    let q = skip_seps(s, p);
    let explicit = is_alpha(s[q]);
    let c_opt = if explicit {
        Some(s[q])
    } else {
        implicit_command(cmd)
    };
    let q2 = if explicit {
        q + 1
    } else {
        q
    };
    if p < 0 || q >= s.len() {
        None
    } else {
        match c_opt {
            None => None,
            Some(c) => if !have && !is_moveto(c) {
                None
            } else {
                match operand_pattern(c) {
                    None => None,
                    Some(pattern) => if is_close(c) && !explicit {
                        None
                    } else {
                        match read_operands(s, q2, pattern) {
                            Err(_) => None,
                            Ok((ops, q3)) => if p < q3 <= s.len() {
                                Some(
                                    (
                                        SpecSegment { command: c, operands: ops },
                                        q3,
                                        Some(c),
                                        have || is_moveto(c),
                                    ),
                                )
                            } else {
                                None
                            },
                        }
                    },
                }
            },
        }
    }
}

/// Whether reading path data from `p0`, in state `cmd0` and `have0`, reads
/// whole segments up to a segment that starts at `p` in state `cmd` and
/// `have`.
pub open spec fn reaches(
    s: Seq<u8>,
    p0: int,
    cmd0: Option<u8>,
    have0: bool,
    p: int,
    cmd: Option<u8>,
    have: bool,
) -> bool
    decreases s.len() - p0,
{
    if p0 == p && cmd0 == cmd && have0 == have {
        true
    } else {
        match next_segment(s, p0, cmd0, have0) {
            Some((g, q3, c, h)) => if p0 < q3 <= s.len() {
                reaches(s, q3, c, h, p, cmd, have)
            } else {
                false
            },
            None => false,
        }
    }
}

proof fn lemma_next_segment_reads(s: Seq<u8>, p: int, cmd: Option<u8>, have: bool)
    requires
        next_segment(s, p, cmd, have) is Some,
    ensures
        ({
            let (g, q3, c, h) = next_segment(s, p, cmd, have)->Some_0;
            &&& path_from(s, p, cmd, have) == prepend(seq![g], path_from(s, q3, c, h))
            &&& p < q3 <= s.len()
            &&& skip_seps(s, p) < q3
        }),
{
    lemma_skip_seps_forward(s, p);
    let q = skip_seps(s, p);
    let explicit = is_alpha(s[q]);
    let c = if explicit {
        s[q]
    } else {
        implicit_command(cmd)->Some_0
    };
    let q2 = if explicit {
        q + 1
    } else {
        q
    };
    lemma_read_operands_advance(s, q2, operand_pattern(c)->Some_0);
}

proof fn lemma_reaches_forward(
    s: Seq<u8>,
    p0: int,
    cmd0: Option<u8>,
    have0: bool,
    p: int,
    cmd: Option<u8>,
    have: bool,
)
    requires
        reaches(s, p0, cmd0, have0, p, cmd, have),
    ensures
        p0 <= p,
    decreases s.len() - p0,
{
    if !(p0 == p && cmd0 == cmd && have0 == have) {
        let (g, q3, c, h) = next_segment(s, p0, cmd0, have0)->Some_0;
        lemma_reaches_forward(s, q3, c, h, p, cmd, have);
    }
}

/// Each operand read moves on by at least one byte.
proof fn lemma_read_operands_length(s: Seq<u8>, r: int, pattern: Seq<OperandKind>)
    requires
        0 <= r,
        read_operands(s, r, pattern) is Ok,
    ensures
        read_operands(s, r, pattern)->Ok_0.1 >= r + pattern.len(),
    decreases pattern.len(),
{
    if pattern.len() > 0 {
        lemma_skip_seps_forward(s, r);
        let q = skip_seps(s, r);
        if q <= s.len() {
            lemma_number_end_forward(s, q);
        }
        let (op, e) = read_operand(s, r, pattern[0])->Ok_0;
        lemma_read_operands_length(s, e, pattern.drop_first());
    }
}

proof fn lemma_number_end_prefix(s: Seq<u8>, t: Seq<u8>, k: int, q: int, e: int)
    requires
        spaced(s, t, k),
        0 <= q,
        number_end(s, q) == Some(e),
        e + 2 < k,
    ensures
        number_end(t, q) == Some(e),
{
    lemma_number_end_forward(s, q);
    assert(t[q] == s[q]);
    let a = if has_sign(s, q) {
        q + 1
    } else {
        q
    };
    lemma_digits_end_forward(s, a);
    let b = digits_end(s, a);
    lemma_digits_end_forward(s, b + 1);
    let c = if has_byte(s, b, 0x2E) {
        digits_end(s, b + 1)
    } else {
        b
    };
    let x = if has_sign(s, c + 1) {
        c + 2
    } else {
        c + 1
    };
    lemma_digits_end_forward(s, x);
    assert(c <= e);
    lemma_digits_end_before(s, t, k, a);
    assert(t[b] == s[b]);
    if has_byte(s, b, 0x2E) {
        lemma_digits_end_before(s, t, k, b + 1);
    }
    assert(t[c] == s[c]);
    if has_byte(s, c, 0x65) || has_byte(s, c, 0x45) {
        assert(t[c + 1] == s[c + 1]);
        lemma_digits_end_before(s, t, k, x);
    }
}

/// Operands read well before the separator read the same in both
/// spellings, and their spans do not move.
proof fn lemma_read_operands_prefix(s: Seq<u8>, t: Seq<u8>, k: int, r: int, pattern: Seq<OperandKind>)
    requires
        spaced(s, t, k),
        0 <= r,
        read_operands(s, r, pattern) matches Ok((_, e)) && e + 2 < k,
    ensures
        read_operands(t, r, pattern) == read_operands(s, r, pattern),
        shift_operands(read_operands(s, r, pattern)->Ok_0.0, k) == read_operands(
            s,
            r,
            pattern,
        )->Ok_0.0,
    decreases pattern.len(),
{
    if pattern.len() == 0 {
        assert(shift_operands(Seq::<Operand>::empty(), k) =~= Seq::<Operand>::empty());
    } else {
        lemma_skip_seps_forward(s, r);
        let q = skip_seps(s, r);
        let (op, e1) = read_operand(s, r, pattern[0])->Ok_0;
        let rest = pattern.drop_first();
        let (rest_ops, e2) = read_operands(s, e1, rest)->Ok_0;
        lemma_read_operands_advance(s, e1, rest);
        if q <= s.len() {
            lemma_number_end_forward(s, q);
        }
        assert(q < e1 <= e2);
        if pattern[0] == OperandKind::Number {
            lemma_number_end_prefix(s, t, k, q, e1);
        }
        lemma_skip_seps_before(s, t, k, r);
        assert(t[q] == s[q]);
        assert(read_operand(t, r, pattern[0]) == read_operand(s, r, pattern[0]));
        lemma_read_operands_prefix(s, t, k, e1, rest);
        let ops = seq![op] + rest_ops;
        assert(shift_operand(op, k) == op);
        assert(shift_operands(ops, k) =~= ops) by {
            assert forall|i: int| 0 <= i < ops.len() implies shift_operands(ops, k)[i] == ops[i] by {
                if i > 0 {
                    assert(ops[i] == rest_ops[i - 1]);
                    assert(shift_operands(rest_ops, k)[i - 1] == rest_ops[i - 1]);
                }
            }
        }
    }
}

/// A segment read well before the separator reads the same in both
/// spellings.
proof fn lemma_next_segment_prefix(s: Seq<u8>, t: Seq<u8>, k: int, p: int, cmd: Option<u8>, have: bool)
    requires
        spaced(s, t, k),
        next_segment(s, p, cmd, have) matches Some((_, q3, _, _)) && q3 + 2 < k,
    ensures
        next_segment(t, p, cmd, have) == next_segment(s, p, cmd, have),
        shift_segment(next_segment(s, p, cmd, have)->Some_0.0, k) == next_segment(
            s,
            p,
            cmd,
            have,
        )->Some_0.0,
{
    lemma_next_segment_reads(s, p, cmd, have);
    lemma_skip_seps_forward(s, p);
    let q = skip_seps(s, p);
    lemma_skip_seps_before(s, t, k, p);
    assert(t[q] == s[q]);
    let explicit = is_alpha(s[q]);
    let c = if explicit {
        s[q]
    } else {
        implicit_command(cmd)->Some_0
    };
    let q2 = if explicit {
        q + 1
    } else {
        q
    };
    lemma_read_operands_prefix(s, t, k, q2, operand_pattern(c)->Some_0);
}

/// Reading from a segment the data reaches before the arc: the same
/// segments up to the arc, and from the arc on what the arc law gives.
proof fn lemma_reaches_the_arc(
    s: Seq<u8>,
    k: int,
    p0: int,
    cmd0: Option<u8>,
    have0: bool,
    p: int,
    cmd: Option<u8>,
    have: bool,
)
    requires
        s.len() + 2 < usize::MAX,
        0 <= p0,
        reaches(s, p0, cmd0, have0, p, cmd, have),
        arc_flag_end(s, p, cmd, k),
    ensures
        path_from(with_separator_at(s, k), p0, cmd0, have0) == shift_outcome(
            path_from(s, p0, cmd0, have0),
            k,
        ),
    decreases s.len() - p0,
{
    if p0 == p && cmd0 == cmd && have0 == have {
        law_a_separator_after_an_arc_flag_reads_the_same(s, p, cmd, have, k);
    } else {
        let (g, q3, c, h) = next_segment(s, p0, cmd0, have0)->Some_0;
        lemma_next_segment_reads(s, p0, cmd0, have0);
        lemma_reaches_forward(s, q3, c, h, p, cmd, have);
        // The arc's own operands take at least four bytes before its flag end.
        let n = OperandKind::Number;
        let f = OperandKind::Flag;
        let qa = skip_seps(s, p);
        lemma_skip_seps_forward(s, p);
        let qa2 = if is_alpha(s[qa]) {
            qa + 1
        } else {
            qa
        };
        if read_operands(s, qa2, seq![n, n, n, f]) matches Ok((_, e)) && e == k {
            lemma_read_operands_length(s, qa2, seq![n, n, n, f]);
        } else {
            lemma_read_operands_length(s, qa2, seq![n, n, n, f, f]);
        }
        assert(q3 + 2 < k);
        assert(k <= s.len()) by {
            if read_operands(s, qa2, seq![n, n, n, f]) matches Ok((_, e)) && e == k {
                lemma_read_operands_within(s, qa2, seq![n, n, n, f]);
            } else {
                lemma_read_operands_within(s, qa2, seq![n, n, n, f, f]);
            }
        }
        lemma_spaced(s, k);
        let t = with_separator_at(s, k);
        lemma_next_segment_prefix(s, t, k, p0, cmd0, have0);
        lemma_next_segment_reads(t, p0, cmd0, have0);
        lemma_reaches_the_arc(s, k, q3, c, h, p, cmd, have);
        lemma_shift_prepend(g, path_from(s, q3, c, h), k);
    }
}

/// Packed arc flags read as spaced ones: in path data that reads up to an
/// arc, writing a separator just after either of its flags reads the same
/// segments with the same operands, each span after the separator moved by
/// the byte written, and refuses what the packed data refuses, at the moved
/// offset.
pub proof fn law_packed_arc_flags_read_as_spaced(s: Seq<u8>, p: int, cmd: Option<u8>, have: bool, k: int)
    requires
        s.len() + 2 < usize::MAX,
        reaches(s, 0, None, false, p, cmd, have),
        arc_flag_end(s, p, cmd, k),
    ensures
        spec_parse_path(with_separator_at(s, k)) == shift_outcome(spec_parse_path(s), k),
{
    lemma_reaches_forward(s, 0, None, false, p, cmd, have);
    lemma_reaches_the_arc(s, k, 0, None, false, p, cmd, have);
}

} // verus!
