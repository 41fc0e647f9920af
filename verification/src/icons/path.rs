//! The SVG path-data grammar the icon set is written in.
//!
//! Supported: `M L H V C S Q T A Z` in absolute and relative form, with
//! implicit repetition (a coordinate pair after `M` is an implicit `L`),
//! numbers with a sign, a fraction and an exponent packed without
//! separators (`l2-2l.5.5`, `1e1`), and arc flags packed against the next
//! number (`a6 6 0 008 8`). A segment keeps its operands as byte spans of
//! the data it was read from: the coordinates themselves are turned into
//! numbers where the path is built.

use vstd::prelude::*;

use super::svg::{IconError, SpecError};

verus! {

/// A separator between path tokens: space, tab, CR, LF or comma.
pub open spec fn is_path_sep(b: u8) -> bool {
    b == 0x20 || b == 0x09 || b == 0x0D || b == 0x0A || b == 0x2C
}

/// An ASCII decimal digit.
pub open spec fn is_digit(b: u8) -> bool {
    0x30 <= b <= 0x39
}

/// An ASCII letter.
pub open spec fn is_alpha(b: u8) -> bool {
    (0x41 <= b <= 0x5A) || (0x61 <= b <= 0x7A)
}

/// Whether position `p` of `s` holds the byte `b`.
pub open spec fn has_byte(s: Seq<u8>, p: int, b: u8) -> bool {
    0 <= p < s.len() && s[p] == b
}

/// Whether position `p` of `s` holds a `+` or a `-`.
pub open spec fn has_sign(s: Seq<u8>, p: int) -> bool {
    has_byte(s, p, 0x2B) || has_byte(s, p, 0x2D)
}

/// The first position at or after `p` that is not a separator.
pub open spec fn skip_seps(s: Seq<u8>, p: int) -> int
    decreases s.len() - p,
{
    if 0 <= p < s.len() && is_path_sep(s[p]) {
        skip_seps(s, p + 1)
    } else {
        p
    }
}

/// The first position at or after `p` that is not a digit.
pub open spec fn digits_end(s: Seq<u8>, p: int) -> int
    decreases s.len() - p,
{
    if 0 <= p < s.len() && is_digit(s[p]) {
        digits_end(s, p + 1)
    } else {
        p
    }
}

/// Where the number that starts at `start` ends: an optional sign, digits,
/// an optional fraction, and an exponent that is taken only when it has
/// digits. `None` when neither the integer nor the fraction has a digit.
pub open spec fn number_end(s: Seq<u8>, start: int) -> Option<int> {
    let a = if has_sign(s, start) {
        start + 1
    } else {
        start
    };
    let b = digits_end(s, a);
    let c = if has_byte(s, b, 0x2E) {
        digits_end(s, b + 1)
    } else {
        b
    };
    let fraction_digits = has_byte(s, b, 0x2E) && c > b + 1;
    if !(b > a || fraction_digits) {
        None
    } else if has_byte(s, c, 0x65) || has_byte(s, c, 0x45) {
        let e = if has_sign(s, c + 1) {
            c + 2
        } else {
            c + 1
        };
        if digits_end(s, e) == e {
            Some(c)
        } else {
            Some(digits_end(s, e))
        }
    } else {
        Some(c)
    }
}

/// One operand of a path command.
#[derive(Debug, Clone, Copy, PartialEq, Eq, Structural)]
pub enum Operand {
    /// A number, as the span `start..end` of the path data that spells it.
    Number { start: usize, end: usize },
    /// An arc flag.
    Flag(bool),
}

/// What kind of operand a command takes next.
#[derive(Debug, Clone, Copy, PartialEq, Eq, Structural)]
pub enum OperandKind {
    Number,
    Flag,
}

/// The operands each supported command takes, in order. `None` for a
/// letter that is not a supported command.
pub open spec fn operand_pattern(c: u8) -> Option<Seq<OperandKind>> {
    let n = OperandKind::Number;
    let f = OperandKind::Flag;
    if c == 0x4D || c == 0x6D || c == 0x4C || c == 0x6C || c == 0x54 || c == 0x74 {
        Some(seq![n, n])
    } else if c == 0x48 || c == 0x68 || c == 0x56 || c == 0x76 {
        Some(seq![n])
    } else if c == 0x43 || c == 0x63 {
        Some(seq![n, n, n, n, n, n])
    } else if c == 0x53 || c == 0x73 || c == 0x51 || c == 0x71 {
        Some(seq![n, n, n, n])
    } else if c == 0x41 || c == 0x61 {
        Some(seq![n, n, n, f, f, n, n])
    } else if c == 0x5A || c == 0x7A {
        Some(Seq::empty())
    } else {
        None
    }
}

/// Reads one operand at `p`; on success, the operand and the position after it.
pub open spec fn read_operand(s: Seq<u8>, p: int, kind: OperandKind) -> Result<
    (Operand, int),
    SpecError,
> {
    let q = skip_seps(s, p);
    match kind {
        OperandKind::Number => match number_end(s, q) {
            Some(e) => Ok((Operand::Number { start: q as usize, end: e as usize }, e)),
            None => Err(SpecError::MalformedNumber(q)),
        },
        OperandKind::Flag => if q >= s.len() {
            Err(SpecError::UnexpectedEnd)
        } else if s[q] == 0x30 {
            Ok((Operand::Flag(false), q + 1))
        } else if s[q] == 0x31 {
            Ok((Operand::Flag(true), q + 1))
        } else {
            Err(SpecError::MalformedFlag(q))
        },
    }
}

/// Reads the operands of `pattern` in order, starting at `p`.
pub open spec fn read_operands(s: Seq<u8>, p: int, pattern: Seq<OperandKind>) -> Result<
    (Seq<Operand>, int),
    SpecError,
>
    decreases pattern.len(),
{
    if pattern.len() == 0 {
        Ok((Seq::empty(), p))
    } else {
        match read_operand(s, p, pattern[0]) {
            Err(e) => Err(e),
            Ok((op, q)) => match read_operands(s, q, pattern.drop_first()) {
                Err(e) => Err(e),
                Ok((rest, r)) => Ok((seq![op] + rest, r)),
            },
        }
    }
}

/// A path segment in the grammar's own terms: the effective command letter
/// and its operands.
pub struct SpecSegment {
    pub command: u8,
    pub operands: Seq<Operand>,
}

/// What reading path data comes to: the segments, the first refusal, or —
/// for data that repeats a `Z` implicitly, such as `M0 0Z 5` — no answer at
/// all, because the reader consumes nothing and never returns.
pub enum PathOutcome {
    Parsed(Seq<SpecSegment>),
    Refused(SpecError),
    Diverges,
}

/// Puts the segments already read in front of what the rest of the data
/// comes to.
pub open spec fn prepend(done: Seq<SpecSegment>, rest: PathOutcome) -> PathOutcome {
    match rest {
        PathOutcome::Parsed(t) => PathOutcome::Parsed(done + t),
        other => other,
    }
}

/// The command a bare operand repeats: the previous command, except that
/// coordinates after a moveto are an implicit lineto.
pub open spec fn implicit_command(cmd: Option<u8>) -> Option<u8> {
    match cmd {
        Some(c) => if c == 0x4D {
            Some(0x4C)
        } else if c == 0x6D {
            Some(0x6C)
        } else {
            Some(c)
        },
        None => None,
    }
}

/// Whether a command letter is a moveto.
pub open spec fn is_moveto(c: u8) -> bool {
    c == 0x4D || c == 0x6D
}

/// Whether a command letter is a closepath.
pub open spec fn is_close(c: u8) -> bool {
    c == 0x5A || c == 0x7A
}

/// Reading operands never goes backwards, and a non-empty pattern read
/// successfully moves forward.
pub proof fn lemma_read_operands_advance(s: Seq<u8>, p: int, pattern: Seq<OperandKind>)
    requires
        read_operands(s, p, pattern) is Ok,
    ensures
        pattern.len() > 0 ==> read_operands(s, p, pattern)->Ok_0.1 > p,
        read_operands(s, p, pattern)->Ok_0.1 >= p,
        read_operands(s, p, pattern)->Ok_0.0.len() == pattern.len(),
    decreases pattern.len(),
{
    if pattern.len() > 0 {
        lemma_skip_seps_forward(s, p);
        let q = skip_seps(s, p);
        match pattern[0] {
            OperandKind::Number => {
                lemma_number_end_forward(s, q);
            },
            OperandKind::Flag => {},
        }
        let (op, q2) = read_operand(s, p, pattern[0])->Ok_0;
        lemma_read_operands_advance(s, q2, pattern.drop_first());
    }
}

/// Skipping separators never moves backwards, and stops at a position
/// that is past the end or holds a non-separator.
pub proof fn lemma_skip_seps_forward(s: Seq<u8>, p: int)
    ensures
        skip_seps(s, p) >= p,
        p >= 0 ==> skip_seps(s, p) <= s.len() || skip_seps(s, p) == p,
        p >= 0 && skip_seps(s, p) < s.len() ==> !is_path_sep(s[skip_seps(s, p)]),
        forall|k: int| p <= k < skip_seps(s, p) ==> 0 <= k < s.len() && is_path_sep(s[k]),
    decreases s.len() - p,
{
    if 0 <= p < s.len() && is_path_sep(s[p]) {
        lemma_skip_seps_forward(s, p + 1);
    }
}

/// Digits never move backwards, and every position they pass is a digit.
pub proof fn lemma_digits_end_forward(s: Seq<u8>, p: int)
    ensures
        digits_end(s, p) >= p,
        p >= 0 && p <= s.len() ==> digits_end(s, p) <= s.len(),
        forall|k: int| p <= k < digits_end(s, p) ==> 0 <= k < s.len() && is_digit(s[k]),
        p >= 0 && digits_end(s, p) < s.len() ==> !is_digit(s[digits_end(s, p)]),
    decreases s.len() - p,
{
    if 0 <= p < s.len() && is_digit(s[p]) {
        lemma_digits_end_forward(s, p + 1);
    }
}

/// A number that reads ends after it starts and no later than the data.
pub proof fn lemma_number_end_forward(s: Seq<u8>, start: int)
    requires
        0 <= start <= s.len(),
    ensures
        number_end(s, start) matches Some(e) ==> start < e <= s.len(),
{
    let a = if has_sign(s, start) {
        start + 1
    } else {
        start
    };
    lemma_digits_end_forward(s, a);
    let b = digits_end(s, a);
    if has_byte(s, b, 0x2E) {
        lemma_digits_end_forward(s, b + 1);
    }
    let c = if has_byte(s, b, 0x2E) {
        digits_end(s, b + 1)
    } else {
        b
    };
    if has_byte(s, c, 0x65) || has_byte(s, c, 0x45) {
        let e = if has_sign(s, c + 1) {
            c + 2
        } else {
            c + 1
        };
        lemma_digits_end_forward(s, e);
    }
}

/// What the path data from position `p` comes to, given the command in
/// force and whether a current point has been set.
pub open spec fn path_from(s: Seq<u8>, p: int, cmd: Option<u8>, have_current: bool) -> PathOutcome
    decreases s.len() - p,
{
    if p < 0 {
        PathOutcome::Parsed(Seq::empty())
    } else {
        let q = skip_seps(s, p);
        if q >= s.len() {
            PathOutcome::Parsed(Seq::empty())
        } else {
            let explicit = is_alpha(s[q]);
            let c_opt = if explicit {
                Some(s[q])
            } else {
                implicit_command(cmd)
            };
            let q2 = if explicit {
                q + 1
            } else {
                q
            };
            match c_opt {
                None => PathOutcome::Refused(SpecError::UnexpectedEnd),
                Some(c) => if !have_current && !is_moveto(c) {
                    PathOutcome::Refused(SpecError::NoCurrentPoint(c as char))
                } else {
                    match operand_pattern(c) {
                        None => PathOutcome::Refused(SpecError::UnsupportedPathCommand(c as char)),
                        Some(pattern) => if is_close(c) && !explicit {
                            PathOutcome::Diverges
                        } else {
                            match read_operands(s, q2, pattern) {
                                Err(e) => PathOutcome::Refused(e),
                                Ok((ops, q3)) => {
                                    proof {
                                        lemma_skip_seps_forward(s, p);
                                        lemma_read_operands_advance(s, q2, pattern);
                                    }
                                    if p < q3 <= s.len() {
                                        prepend(
                                            seq![SpecSegment { command: c, operands: ops }],
                                            path_from(s, q3, Some(c), have_current || is_moveto(c)),
                                        )
                                    } else {
                                        PathOutcome::Diverges
                                    }
                                },
                            }
                        },
                    }
                },
            }
        }
    }
}

/// What a whole path-data string comes to.
pub open spec fn spec_parse_path(s: Seq<u8>) -> PathOutcome {
    path_from(s, 0, None, false)
}

/// A path segment: the effective command letter (after implicit repetition)
/// and its operands.
#[derive(Debug, Clone, PartialEq, Eq)]
pub struct PathSegment {
    pub command: u8,
    pub operands: Vec<Operand>,
}

impl PathSegment {
    /// The segment in the grammar's terms.
    pub open spec fn view(&self) -> SpecSegment {
        SpecSegment { command: self.command, operands: self.operands@ }
    }
}

/// The segments of a sequence, each in the grammar's terms.
pub open spec fn segments_view(segs: Seq<PathSegment>) -> Seq<SpecSegment> {
    Seq::new(segs.len(), |i: int| segs[i].view())
}

/// What reading path data came to.
#[derive(Debug, Clone, PartialEq, Eq)]
pub enum PathParse {
    /// The data read completely; one segment per command.
    Parsed(Vec<PathSegment>),
    /// The first refusal, with the offset it names.
    Refused(IconError),
    /// The data repeats a `Z` implicitly: a reader that consumes nothing on
    /// `Z` never returns on it.
    Diverges,
}

/// Whether a parse outcome is the one the grammar prescribes.
pub open spec fn path_parse_matches(r: PathParse, o: PathOutcome) -> bool {
    match r {
        PathParse::Parsed(v) => o is Parsed && segments_view(v@) == o->Parsed_0,
        PathParse::Refused(e) => o is Refused && e.view() == o->Refused_0,
        PathParse::Diverges => o is Diverges,
    }
}

/// A cursor over path data.
pub struct PathLexer<'a> {
    bytes: &'a [u8],
    pos: usize,
}

impl<'a> PathLexer<'a> {
    /// The data being read.
    pub closed spec fn data(&self) -> Seq<u8> {
        self.bytes@
    }

    /// The position of the cursor.
    pub closed spec fn at(&self) -> int {
        self.pos as int
    }

    /// A cursor at the start of `bytes`.
    pub fn new(bytes: &'a [u8]) -> (lex: Self)
        ensures
            lex.data() == bytes@,
            lex.at() == 0,
    {
        PathLexer { bytes, pos: 0 }
    }

    /// Moves past separators.
    pub fn skip_separators(&mut self)
        requires
            old(self).at() <= old(self).data().len(),
        ensures
            final(self).data() == old(self).data(),
            final(self).at() == skip_seps(old(self).data(), old(self).at()),
            final(self).at() <= final(self).data().len(),
    {
        proof {
            lemma_skip_seps_forward(self.bytes@, self.pos as int);
        }
        while self.pos < self.bytes.len() && is_separator(self.bytes[self.pos])
            invariant
                self.bytes@ == old(self).data(),
                old(self).at() <= self.pos <= self.bytes@.len(),
                skip_seps(self.bytes@, self.pos as int) == skip_seps(
                    old(self).data(),
                    old(self).at(),
                ),
            decreases self.bytes@.len() - self.pos,
        {
            self.pos += 1;
        }
    }

    /// Whether only separators remain; leaves the cursor past them.
    pub fn at_end(&mut self) -> (r: bool)
        requires
            old(self).at() <= old(self).data().len(),
        ensures
            final(self).data() == old(self).data(),
            final(self).at() == skip_seps(old(self).data(), old(self).at()),
            r == (final(self).at() >= final(self).data().len()),
            final(self).at() <= final(self).data().len(),
    {
        self.skip_separators();
        self.pos >= self.bytes.len()
    }

    /// The next byte after any separators, if there is one.
    pub fn peek(&mut self) -> (r: Option<u8>)
        requires
            old(self).at() <= old(self).data().len(),
        ensures
            final(self).data() == old(self).data(),
            final(self).at() == skip_seps(old(self).data(), old(self).at()),
            final(self).at() <= final(self).data().len(),
            r == (if final(self).at() < final(self).data().len() {
                Some(final(self).data()[final(self).at()])
            } else {
                None
            }),
    {
        self.skip_separators();
        if self.pos < self.bytes.len() {
            Some(self.bytes[self.pos])
        } else {
            None
        }
    }

    /// Takes a command letter if one comes next.
    pub fn take_command(&mut self) -> (r: Option<u8>)
        requires
            old(self).at() <= old(self).data().len(),
        ensures
            final(self).data() == old(self).data(),
            ({
                let q = skip_seps(old(self).data(), old(self).at());
                if q < old(self).data().len() && is_alpha(old(self).data()[q]) {
                    r == Some(old(self).data()[q]) && final(self).at() == q + 1
                } else {
                    r is None && final(self).at() == q
                }
            }),
            final(self).at() <= final(self).data().len(),
    {
        let b = match self.peek() {
            Some(b) => b,
            None => return None,
        };
        if ((0x41 <= b && b <= 0x5A) || (0x61 <= b && b <= 0x7A)) && self.pos < self.bytes.len() {
            self.pos += 1;
            Some(b)
        } else {
            None
        }
    }

    /// Moves past digits.
    fn skip_digits(&mut self)
        requires
            old(self).at() <= old(self).data().len(),
        ensures
            final(self).data() == old(self).data(),
            final(self).at() == digits_end(old(self).data(), old(self).at()),
            final(self).at() <= final(self).data().len(),
    {
        proof {
            lemma_digits_end_forward(self.bytes@, self.pos as int);
        }
        while self.pos < self.bytes.len() && is_digit_byte(self.bytes[self.pos])
            invariant
                self.bytes@ == old(self).data(),
                old(self).at() <= self.pos <= self.bytes@.len(),
                digits_end(self.bytes@, self.pos as int) == digits_end(
                    old(self).data(),
                    old(self).at(),
                ),
            decreases self.bytes@.len() - self.pos,
        {
            self.pos += 1;
        }
    }

    /// Whether the byte at the cursor is `b`.
    fn at_byte(&self, b: u8) -> (r: bool)
        ensures
            r == has_byte(self.data(), self.at(), b),
            r ==> self.at() + 1 <= usize::MAX,
    {
        self.pos < self.bytes.len() && self.bytes[self.pos] == b
    }

    /// Takes a number and returns its span; a number needs a digit in its
    /// integer or its fraction part, and its exponent is taken only when the
    /// exponent has digits.
    pub fn take_number(&mut self) -> (r: Result<(usize, usize), IconError>)
        requires
            old(self).at() <= old(self).data().len(),
        ensures
            final(self).data() == old(self).data(),
            final(self).at() <= final(self).data().len(),
            ({
                let s = old(self).data();
                let q = skip_seps(s, old(self).at());
                match number_end(s, q) {
                    Some(e) => r == Ok::<(usize, usize), IconError>((q as usize, e as usize))
                        && final(self).at() == e,
                    None => r is Err && r->Err_0.view() == SpecError::MalformedNumber(q),
                }
            }),
    {
        self.skip_separators();
        let ghost s = self.bytes@;
        let start = self.pos;
        proof {
            lemma_number_end_forward(s, start as int);
        }
        if self.at_byte(0x2B) || self.at_byte(0x2D) {
            self.pos += 1;
        }
        let int_start = self.pos;
        self.skip_digits();
        let int_end = self.pos;
        let mut fraction = false;
        if self.at_byte(0x2E) {
            self.pos += 1;
            let frac_start = self.pos;
            self.skip_digits();
            fraction = self.pos > frac_start;
        }
        if !(int_end > int_start || fraction) {
            return Err(IconError::MalformedNumber { offset: start });
        }
        if self.at_byte(0x65) || self.at_byte(0x45) {
            let save = self.pos;
            self.pos += 1;
            if self.at_byte(0x2B) || self.at_byte(0x2D) {
                self.pos += 1;
            }
            let exp_start = self.pos;
            self.skip_digits();
            if self.pos == exp_start {
                self.pos = save;
            }
        }
        Ok((start, self.pos))
    }

    /// Takes an arc flag, which is exactly one `0` or `1` byte.
    pub fn take_flag(&mut self) -> (r: Result<bool, IconError>)
        requires
            old(self).at() <= old(self).data().len(),
        ensures
            final(self).data() == old(self).data(),
            final(self).at() <= final(self).data().len(),
            ({
                let s = old(self).data();
                let q = skip_seps(s, old(self).at());
                match read_operand(s, old(self).at(), OperandKind::Flag) {
                    Ok((Operand::Flag(b), e)) => r == Ok::<bool, IconError>(b)
                        && final(self).at() == e,
                    Err(e) => r is Err && r->Err_0.view() == e,
                    _ => false,
                }
            }),
    {
        self.skip_separators();
        if self.pos >= self.bytes.len() {
            return Err(IconError::UnexpectedEnd);
        }
        let b = self.bytes[self.pos];
        if b == 0x30 {
            self.pos += 1;
            Ok(false)
        } else if b == 0x31 {
            self.pos += 1;
            Ok(true)
        } else {
            Err(IconError::MalformedFlag { offset: self.pos })
        }
    }

    /// Reads the operands a command takes.
    fn take_operands(&mut self, command: u8, pattern: Ghost<Seq<OperandKind>>) -> (r: Result<
        Vec<Operand>,
        IconError,
    >)
        requires
            old(self).at() <= old(self).data().len(),
            operand_pattern(command) == Some(pattern@),
        ensures
            final(self).data() == old(self).data(),
            final(self).at() <= final(self).data().len(),
            match read_operands(old(self).data(), old(self).at(), pattern@) {
                Ok((ops, e)) => r is Ok && r->Ok_0@ == ops && final(self).at() == e,
                Err(e) => r is Err && r->Err_0.view() == e,
            },
    {
        let kinds = operand_kinds(command);
        let mut ops: Vec<Operand> = Vec::new();
        let mut i: usize = 0;
        let ghost s = self.bytes@;
        let ghost p0 = self.pos as int;
        assert(pattern@.subrange(0, pattern@.len() as int) =~= pattern@);
        proof {
            match read_operands(s, p0, pattern@) {
                Ok((rest, e)) => {
                    assert(ops@ + rest =~= rest);
                },
                Err(e) => {},
            }
        }
        while i < kinds.len()
            invariant
                kinds@ == pattern@,
                self.bytes@ == s,
                s == old(self).data(),
                p0 == old(self).at(),
                0 <= i <= kinds@.len(),
                self.pos <= s.len(),
                read_operands(s, p0, pattern@) == match read_operands(
                    s,
                    self.pos as int,
                    pattern@.subrange(i as int, pattern@.len() as int),
                ) {
                    Ok((rest, e)) => Ok::<(Seq<Operand>, int), SpecError>((ops@ + rest, e)),
                    Err(e) => Err::<(Seq<Operand>, int), SpecError>(e),
                },
            decreases kinds@.len() - i,
        {
            let ghost rest_pattern = pattern@.subrange(i as int, pattern@.len() as int);
            assert(rest_pattern.drop_first() =~= pattern@.subrange(
                i + 1,
                pattern@.len() as int,
            ));
            let ghost before = ops@;
            match kinds[i] {
                OperandKind::Number => {
                    let (start, end) = match self.take_number() {
                        Ok(span) => span,
                        Err(e) => return Err(e),
                    };
                    ops.push(Operand::Number { start, end });
                },
                OperandKind::Flag => {
                    let b = match self.take_flag() {
                        Ok(b) => b,
                        Err(e) => return Err(e),
                    };
                    ops.push(Operand::Flag(b));
                },
            }
            proof {
                assert(ops@ =~= before + seq![ops@.last()]);
                let ghost tail = read_operands(
                    s,
                    self.pos as int,
                    pattern@.subrange(i + 1, pattern@.len() as int),
                );
                match tail {
                    Ok((rest, e)) => {
                        assert(before + (seq![ops@.last()] + rest) =~= ops@ + rest);
                    },
                    Err(e) => {},
                }
            }
            i += 1;
        }
        assert(pattern@.subrange(kinds@.len() as int, pattern@.len() as int) =~= Seq::<
            OperandKind,
        >::empty());
        assert(ops@ + Seq::<Operand>::empty() =~= ops@);
        Ok(ops)
    }
}

/// Whether a byte separates path tokens.
fn is_separator(b: u8) -> (r: bool)
    ensures
        r == is_path_sep(b),
{
    b == 0x20 || b == 0x09 || b == 0x0D || b == 0x0A || b == 0x2C
}

/// Whether a byte is an ASCII digit.
fn is_digit_byte(b: u8) -> (r: bool)
    ensures
        r == is_digit(b),
{
    0x30 <= b && b <= 0x39
}

/// The operand kinds of a supported command, as a vector.
fn operand_kinds(c: u8) -> (v: Vec<OperandKind>)
    requires
        operand_pattern(c) is Some,
    ensures
        v@ == operand_pattern(c)->Some_0,
{
    let n = OperandKind::Number;
    let f = OperandKind::Flag;
    let v = if c == 0x4D || c == 0x6D || c == 0x4C || c == 0x6C || c == 0x54 || c == 0x74 {
        vec![n, n]
    } else if c == 0x48 || c == 0x68 || c == 0x56 || c == 0x76 {
        vec![n]
    } else if c == 0x43 || c == 0x63 {
        vec![n, n, n, n, n, n]
    } else if c == 0x53 || c == 0x73 || c == 0x51 || c == 0x71 {
        vec![n, n, n, n]
    } else if c == 0x41 || c == 0x61 {
        vec![n, n, n, f, f, n, n]
    } else {
        Vec::new()
    };
    assert(v@ =~= operand_pattern(c)->Some_0);
    v
}

/// Whether a letter is a command this reader supports.
fn is_supported_command(c: u8) -> (r: bool)
    ensures
        r == (operand_pattern(c) is Some),
{
    c == 0x4D || c == 0x6D || c == 0x4C || c == 0x6C || c == 0x54 || c == 0x74 || c == 0x48
        || c == 0x68 || c == 0x56 || c == 0x76 || c == 0x43 || c == 0x63 || c == 0x53 || c
        == 0x73 || c == 0x51 || c == 0x71 || c == 0x41 || c == 0x61 || c == 0x5A || c == 0x7A
}

/// Reads path data into segments, exactly as [`spec_parse_path`] prescribes.
pub fn parse_path_data(d: &[u8]) -> (r: PathParse)
    ensures
        path_parse_matches(r, spec_parse_path(d@)),
{
    let mut lex = PathLexer::new(d);
    let mut segments: Vec<PathSegment> = Vec::new();
    let mut command: Option<u8> = None;
    let mut have_current = false;
    let ghost s = d@;
    loop
        invariant
            s == d@,
            command matches Some(c) ==> is_alpha(c),
            lex.data() == s,
            lex.at() <= s.len(),
            lex.at() >= 0,
            spec_parse_path(s) == prepend(
                segments_view(segments@),
                path_from(s, lex.at(), command, have_current),
            ),
        decreases s.len() - lex.at(),
    {
        let ghost p = lex.at();
        let ghost cmd0 = command;
        proof {
            lemma_skip_seps_forward(s, p);
        }
        if lex.at_end() {
            proof {
                assert(path_from(s, p, cmd0, have_current) == PathOutcome::Parsed(Seq::<SpecSegment>::empty()));
                assert(segments_view(segments@) + Seq::<SpecSegment>::empty() =~= segments_view(
                    segments@,
                ));
            }
            return PathParse::Parsed(segments);
        }
        let ghost q = lex.at();
        let peeked = lex.peek();
        let mut explicit = false;
        if let Some(b) = peeked {
            if (0x41 <= b && b <= 0x5A) || (0x61 <= b && b <= 0x7A) {
                command = lex.take_command();
                explicit = true;
            } else {
                command = match command {
                    Some(0x4D) => Some(0x4C),
                    Some(0x6D) => Some(0x6C),
                    other => other,
                };
            }
        }
        let c = match command {
            Some(c) => c,
            None => return PathParse::Refused(IconError::UnexpectedEnd),
        };
        if !have_current && !(c == 0x4D || c == 0x6D) {
            return PathParse::Refused(IconError::NoCurrentPoint(ascii_char(c)));
        }
        if !is_supported_command(c) {
            return PathParse::Refused(IconError::UnsupportedPathCommand(ascii_char(c)));
        }
        if (c == 0x5A || c == 0x7A) && !explicit {
            return PathParse::Diverges;
        }
        let ghost q2 = lex.at();
        let ghost pattern = operand_pattern(c)->Some_0;
        let ops = match lex.take_operands(c, Ghost(pattern)) {
            Ok(ops) => ops,
            Err(e) => {
                proof {
                    assert(path_from(s, p, cmd0, have_current) == PathOutcome::Refused(e.view()));
                }
                return PathParse::Refused(e);
            },
        };
        proof {
            lemma_read_operands_advance(s, q2, pattern);
        }
        let ghost seg = SpecSegment { command: c, operands: ops@ };
        let segment = PathSegment { command: c, operands: ops };
        let ghost before = segments@;
        segments.push(segment);
        proof {
            assert(segments_view(segments@) =~= segments_view(before) + seq![seg]);
            let rest = path_from(s, lex.at(), command, have_current || is_moveto(c));
            match rest {
                PathOutcome::Parsed(t) => {
                    assert(segments_view(before) + (seq![seg] + t) =~= segments_view(segments@)
                        + t);
                },
                _ => {},
            }
        }
        if c == 0x4D || c == 0x6D {
            have_current = true;
        }
    }
}

/// The character an ASCII byte spells.
pub fn ascii_char(b: u8) -> (c: char)
    requires
        is_alpha(b),
    ensures
        c == (b as char),
{
    b as char
}

/// Path data must start with a moveto: the first segment of any data that
/// reads is an `M` or an `m`.
pub proof fn law_path_data_starts_with_a_moveto(s: Seq<u8>)
    ensures
        spec_parse_path(s) matches PathOutcome::Parsed(t) ==> (t.len() > 0 ==> is_moveto(
            t[0].command,
        )),
{
    lemma_skip_seps_forward(s, 0);
}

/// Every segment that reads carries exactly the operands its command takes.
pub proof fn law_segments_carry_their_operands(s: Seq<u8>, p: int, cmd: Option<u8>, have: bool)
    ensures
        path_from(s, p, cmd, have) matches PathOutcome::Parsed(t) ==> forall|k: int|
            0 <= k < t.len() ==> operand_pattern(#[trigger] t[k].command) is Some
                && t[k].operands.len() == operand_pattern(t[k].command)->Some_0.len(),
    decreases s.len() - p,
{
    if p >= 0 {
        let q = skip_seps(s, p);
        lemma_skip_seps_forward(s, p);
        if q < s.len() {
            let explicit = is_alpha(s[q]);
            let c_opt = if explicit {
                Some(s[q])
            } else {
                implicit_command(cmd)
            };
            let q2 = if explicit {
                q + 1
            } else {
                q
            };
            if let Some(c) = c_opt {
                if let Some(pattern) = operand_pattern(c) {
                    if let Ok((ops, q3)) = read_operands(s, q2, pattern) {
                        lemma_read_operands_advance(s, q2, pattern);
                        if p < q3 <= s.len() {
                            law_segments_carry_their_operands(
                                s,
                                q3,
                                Some(c),
                                have || is_moveto(c),
                            );
                            let rest = path_from(s, q3, Some(c), have || is_moveto(c));
                            if let PathOutcome::Parsed(t2) = rest {
                                let seg = SpecSegment { command: c, operands: ops };
                                assert forall|k: int| 0 <= k < (seq![seg] + t2).len() implies operand_pattern(
                                    #[trigger] (seq![seg] + t2)[k].command,
                                ) is Some && (seq![seg] + t2)[k].operands.len() == operand_pattern(
                                    (seq![seg] + t2)[k].command,
                                )->Some_0.len() by {
                                    if k > 0 {
                                        assert((seq![seg] + t2)[k] == t2[k - 1]);
                                    }
                                }
                            }
                        }
                    }
                }
            }
        }
    }
}

} // verus!
