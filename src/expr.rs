use vstd::prelude::*;
use crate::diagnostic::{FatalError, FatalKind};
use crate::lexical::{
    char_at, ident_continue, ident_start, is_char_at, is_digit, is_ident_continue,
    is_ident_start,
};
use crate::parser::{is_recoverable, ParseError, ParseResult};
use crate::span::{Span, Spanned};

verus! {

/// A path such as `a::b::C`; its text is the source under its span.
#[derive(Clone, Copy, Debug, PartialEq, Eq, Structural)]
pub struct PathType {
    pub span: Span,
}

/// The expressions that may stand as a length: a decimal literal or a path.
#[derive(Clone, Copy, Debug, PartialEq, Eq, Structural)]
pub enum Expr {
    Literal { span: Span, value: u64 },
    Path(PathType),
}

impl Spanned for PathType {
    open spec fn spec_span(&self) -> Span {
        self.span
    }

    fn span(&self) -> (r: Span) {
        self.span
    }
}

impl Spanned for Expr {
    open spec fn spec_span(&self) -> Span {
        match self {
            Expr::Literal { span, .. } => *span,
            Expr::Path(p) => p.span,
        }
    }

    fn span(&self) -> (r: Span) {
        match self {
            Expr::Literal { span, .. } => *span,
            Expr::Path(p) => p.span,
        }
    }
}

/// The rest of a path whose first character stands at `start`, scanning from
/// `i`: identifier characters, and `::` followed by a new identifier.
pub open spec fn spec_path_from(src: Seq<char>, start: usize, i: usize) -> ParseResult<
    PathType,
    (),
    FatalError,
>
    decreases src.len() - i,
    when src.len() <= usize::MAX
{
    if i < src.len() && ident_continue(src[i as int]) {
        spec_path_from(src, start, (i + 1) as usize)
    } else if char_at(src, i, ':') && char_at(src, (i + 1) as usize, ':') {
        if i + 2 < src.len() && ident_start(src[i + 2]) {
            spec_path_from(src, start, (i + 3) as usize)
        } else {
            Err(ParseError::Fatal(FatalError::at((i + 2) as usize, FatalKind::ExpectedIdentifier)))
        }
    } else {
        Ok((PathType { span: Span { start, end: i } }, i))
    }
}

/// A path commits once its first identifier character is seen.
pub open spec fn spec_path(src: Seq<char>, pos: usize) -> ParseResult<PathType, (), FatalError> {
    if pos < src.len() && ident_start(src[pos as int]) {
        spec_path_from(src, pos, (pos + 1) as usize)
    } else {
        Err(ParseError::Recoverable(()))
    }
}

pub proof fn lemma_path_from(src: Seq<char>, start: usize, i: usize)
    requires
        start < i <= src.len() <= usize::MAX,
    ensures
        !is_recoverable(spec_path_from(src, start, i)),
        spec_path_from(src, start, i) matches Ok((p, e)) ==> i <= e <= src.len() && p.span == (Span { start, end: e }),
    decreases src.len() - i,
{
    if i < src.len() && ident_continue(src[i as int]) {
        lemma_path_from(src, start, (i + 1) as usize);
    } else if char_at(src, i, ':') && char_at(src, (i + 1) as usize, ':') {
        if i + 2 < src.len() && ident_start(src[i + 2]) {
            lemma_path_from(src, start, (i + 3) as usize);
        }
    }
}

pub fn path_type(src: &[char], pos: usize) -> (r: ParseResult<PathType, (), FatalError>)
    requires
        pos <= src@.len(),
    ensures
        r == spec_path(src@, pos),
        r matches Ok((_, end)) ==> pos < end <= src@.len(),
{
    if !(pos < src.len() && is_ident_start(src[pos])) {
        return Err(ParseError::Recoverable(()));
    }
    let mut i = pos + 1;
    loop
        invariant
            pos < i <= src@.len(),
            spec_path(src@, pos) == spec_path_from(src@, pos, i),
        decreases src@.len() - i,
    {
        if i < src.len() && is_ident_continue(src[i]) {
            i = i + 1;
        } else if is_char_at(src, i, ':') && is_char_at(src, i + 1, ':') {
            if i + 2 < src.len() && is_ident_start(src[i + 2]) {
                i = i + 3;
            } else {
                return Err(ParseError::Fatal(FatalError::new(i + 2, FatalKind::ExpectedIdentifier)));
            }
        } else {
            return Ok((PathType { span: Span::new(pos, i) }, i));
        }
    }
}

pub open spec fn digit_value(c: char) -> nat {
    (c as u32 - '0' as u32) as nat
}

/// The rest of a decimal literal starting at `start`, scanning from `i` with
/// `acc` the value of the digits before `i`. A value beyond `u64` is fatal.
pub open spec fn spec_literal_from(src: Seq<char>, start: usize, i: usize, acc: nat) -> ParseResult<
    Expr,
    (),
    FatalError,
>
    decreases src.len() - i,
    when src.len() <= usize::MAX
{
    if i < src.len() && is_digit(src[i as int]) {
        spec_literal_from(src, start, (i + 1) as usize, acc * 10 + digit_value(src[i as int]))
    } else if acc <= u64::MAX {
        Ok((Expr::Literal { span: Span { start, end: i }, value: acc as u64 }, i))
    } else {
        Err(ParseError::Fatal(FatalError::at(start, FatalKind::LiteralTooLarge)))
    }
}

/// An expression: a literal when a digit comes first, else a path.
pub open spec fn spec_expr(src: Seq<char>, pos: usize) -> ParseResult<Expr, (), FatalError> {
    if pos < src.len() && is_digit(src[pos as int]) {
        spec_literal_from(src, pos, pos, 0)
    } else {
        match spec_path(src, pos) {
            Ok((p, end)) => Ok((Expr::Path(p), end)),
            Err(e) => Err(e),
        }
    }
}

pub proof fn lemma_literal_from(src: Seq<char>, start: usize, i: usize, acc: nat)
    requires
        start <= i <= src.len() <= usize::MAX,
    ensures
        !is_recoverable(spec_literal_from(src, start, i, acc)),
        spec_literal_from(src, start, i, acc) matches Ok((x, e)) ==> i <= e <= src.len() && x.spec_span() == (Span { start, end: e }),
    decreases src.len() - i,
{
    if i < src.len() && is_digit(src[i as int]) {
        lemma_literal_from(src, start, (i + 1) as usize, acc * 10 + digit_value(src[i as int]));
    }
}

/// Whether an expression begins at `pos`: a digit or an identifier start.
pub open spec fn expr_starts(src: Seq<char>, pos: usize) -> bool {
    pos < src.len() && (is_digit(src[pos as int]) || ident_start(src[pos as int]))
}

/// An expression that is read consumes at least one character, and its span
/// is what it consumed. Past a digit or an identifier start it never fails
/// recoverably.
pub proof fn lemma_expr(src: Seq<char>, pos: usize)
    requires
        pos <= src.len() <= usize::MAX,
    ensures
        spec_expr(src, pos) matches Ok((x, e)) ==> pos < e <= src.len() && x.spec_span() == (Span { start: pos, end: e }),
        is_recoverable(spec_expr(src, pos)) <==> !expr_starts(src, pos),
{
    if pos < src.len() && is_digit(src[pos as int]) {
        lemma_literal_from(src, pos, (pos + 1) as usize, digit_value(src[pos as int]));
    } else if pos < src.len() && ident_start(src[pos as int]) {
        lemma_path_from(src, pos, (pos + 1) as usize);
    }
}

fn literal(src: &[char], pos: usize) -> (r: ParseResult<Expr, (), FatalError>)
    requires
        pos < src@.len(),
        is_digit(src@[pos as int]),
    ensures
        r == spec_literal_from(src@, pos, pos, 0),
        r matches Ok((_, end)) ==> pos < end <= src@.len(),
{
    let mut i = pos;
    let mut value: u64 = 0;
    let mut overflowed = false;
    let ghost mut acc: nat = 0;
    while i < src.len() && '0' <= src[i] && src[i] <= '9'
        invariant
            pos <= i <= src@.len(),
            i == pos ==> acc == 0,
            spec_literal_from(src@, pos, pos, 0) == spec_literal_from(src@, pos, i, acc),
            !overflowed ==> value == acc,
            overflowed ==> acc > u64::MAX,
        decreases src@.len() - i,
    {
        let d = (src[i] as u32 - '0' as u32) as u64;
        proof {
            let a = acc;
            assert(a * 10 >= a) by (nonlinear_arith);
            acc = acc * 10 + digit_value(src@[i as int]);
        }
        if !overflowed {
            match value.checked_mul(10) {
                Some(v) => match v.checked_add(d) {
                    Some(w) => {
                        value = w;
                    },
                    None => {
                        overflowed = true;
                    },
                },
                None => {
                    overflowed = true;
                },
            }
        }
        i = i + 1;
    }
    if overflowed {
        Err(ParseError::Fatal(FatalError::new(pos, FatalKind::LiteralTooLarge)))
    } else {
        Ok((Expr::Literal { span: Span::new(pos, i), value }, i))
    }
}

pub fn expr(src: &[char], pos: usize) -> (r: ParseResult<Expr, (), FatalError>)
    requires
        pos <= src@.len(),
    ensures
        r == spec_expr(src@, pos),
        r matches Ok((_, end)) ==> pos < end <= src@.len(),
{
    if pos < src.len() && '0' <= src[pos] && src[pos] <= '9' {
        literal(src, pos)
    } else {
        match path_type(src, pos) {
            Ok((p, end)) => Ok((Expr::Path(p), end)),
            Err(e) => Err(e),
        }
    }
}

} // verus!
