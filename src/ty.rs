use vstd::prelude::*;
use crate::diagnostic::{FatalError, FatalKind};
use crate::expr::{expr, path_type, spec_expr, spec_path, Expr, PathType};
use crate::lexical::{char_at, is_char_at, is_str_keyword_at, skip_ws, spec_skip_ws, str_keyword_at};
use crate::parser::{committed, spec_committed, spec_first_match, Or, ParseError, ParseResult, Parser};
use crate::span::{Span, Spanned};

verus! {

/// A bracketed length, `[ expr ]`, with the span of the brackets.
#[derive(Debug)]
pub struct SquareBrackets {
    pub span: Span,
    pub inner: Box<Expr>,
}

/// A type expression.
#[derive(Debug)]
pub enum Ty {
    Path { path: PathType },
    Tuple(TyTuple),
    Array(TyArray),
    Str { str_token: Span, length: SquareBrackets },
}

/// `( ty, ty, ... )`, with an optional trailing comma.
#[derive(Debug)]
pub struct TyTuple {
    pub span: Span,
    pub elems: TyList,
}

/// The elements of a tuple type, first to last.
#[derive(Debug)]
pub enum TyList {
    Nil,
    Cons(Box<Ty>, Box<TyList>),
}

/// `[ ty ; expr ]`.
#[derive(Debug)]
pub struct TyArray {
    pub span: Span,
    pub elem: Box<Ty>,
    pub length: Box<Expr>,
}

/// No alternative of the type grammar applies at `position`.
#[derive(Clone, Copy, Debug, PartialEq, Eq, Structural)]
pub struct ExpectedTypeError {
    pub position: usize,
}

impl Spanned for Ty {
    open spec fn spec_span(&self) -> Span {
        match self {
            Ty::Path { path } => path.span,
            Ty::Tuple(t) => t.span,
            Ty::Array(a) => a.span,
            Ty::Str { str_token, length } => Span::spec_join(*str_token, length.span),
        }
    }

    fn span(&self) -> (r: Span) {
        match self {
            Ty::Path { path } => path.span(),
            Ty::Tuple(t) => t.span(),
            Ty::Array(a) => a.span(),
            Ty::Str { str_token, length } => Span::join(*str_token, length.span()),
        }
    }
}

impl Spanned for TyTuple {
    open spec fn spec_span(&self) -> Span {
        self.span
    }

    fn span(&self) -> (r: Span) {
        self.span
    }
}

impl Spanned for TyArray {
    open spec fn spec_span(&self) -> Span {
        self.span
    }

    fn span(&self) -> (r: Span) {
        self.span
    }
}

impl Spanned for SquareBrackets {
    open spec fn spec_span(&self) -> Span {
        self.span
    }

    fn span(&self) -> (r: Span) {
        self.span
    }
}

impl TyList {
    pub open spec fn spec_len(&self) -> nat
        decreases self,
    {
        match self {
            TyList::Nil => 0,
            TyList::Cons(_, rest) => 1 + rest.spec_len(),
        }
    }

    /// The number of elements.
    pub fn len(&self) -> (r: usize)
        requires
            self.spec_len() <= usize::MAX,
        ensures
            r == self.spec_len(),
        decreases self,
    {
        match self {
            TyList::Nil => 0,
            TyList::Cons(_, rest) => 1 + rest.len(),
        }
    }
}

/// Positions in the grammar only move forward. The parsers prove that every
/// check written with this predicate holds; it is there so that the
/// recursion of the grammar is seen to terminate. The spec functions are
/// defined for buffers whose length fits in `usize`, which the parsers learn
/// by asking the slice for its length.
pub open spec fn advances(src: Seq<char>, from: usize, to: usize) -> bool {
    from < to && to <= src.len()
}

/// `str [ expr ]`: commits once the keyword and the opening bracket are read.
pub open spec fn spec_str_ty(src: Seq<char>, pos: usize) -> ParseResult<Ty, (), FatalError> {
    let b = spec_skip_ws(src, (pos + 3) as usize);
    let p = spec_skip_ws(src, (b + 1) as usize);
    if !str_keyword_at(src, pos) || !char_at(src, b, '[') {
        Err(ParseError::Recoverable(()))
    } else {
        match spec_committed(spec_expr(src, p), FatalError::at(p, FatalKind::ExpectedExpression)) {
            Err(f) => Err(ParseError::Fatal(f)),
            Ok((length, e)) => {
                let q = spec_skip_ws(src, e);
                if char_at(src, q, ']') {
                    Ok(
                        (
                            Ty::Str {
                                str_token: Span { start: pos, end: (pos + 3) as usize },
                                length: SquareBrackets {
                                    span: Span { start: b, end: (q + 1) as usize },
                                    inner: Box::new(length),
                                },
                            },
                            (q + 1) as usize,
                        ),
                    )
                } else {
                    Err(ParseError::Fatal(FatalError::at(q, FatalKind::ExpectedCloseBracket)))
                }
            },
        }
    }
}

pub open spec fn spec_path_ty(src: Seq<char>, pos: usize) -> ParseResult<Ty, (), FatalError> {
    match spec_path(src, pos) {
        Ok((path, e)) => Ok((Ty::Path { path }, e)),
        Err(e) => Err(e),
    }
}

/// How deeply tuples and arrays may nest inside one another.
pub const MAX_NESTING: usize = 128;

/// A type nested in a tuple or an array at `depth`, where a type must follow:
/// past `MAX_NESTING` levels the parse stops with a fatal error.
pub open spec fn spec_nested_ty(src: Seq<char>, p: usize, depth: usize) -> Result<(Ty, usize), FatalError>
    decreases src.len() - p, 3nat,
    when src.len() <= usize::MAX
{
    if depth < MAX_NESTING {
        spec_committed(spec_ty(src, p, (depth + 1) as usize), FatalError::at(p, FatalKind::ExpectedType))
    } else {
        Err(FatalError::at(p, FatalKind::NestingTooDeep))
    }
}

/// `( ... )`: commits once the opening parenthesis is read.
pub open spec fn spec_tuple_ty(src: Seq<char>, pos: usize, depth: usize) -> ParseResult<Ty, (), FatalError>
    decreases src.len() - pos, 0nat,
    when src.len() <= usize::MAX
{
    let p = spec_skip_ws(src, (pos + 1) as usize);
    if !char_at(src, pos, '(') {
        Err(ParseError::Recoverable(()))
    } else if !advances(src, pos, p) {
        Err(ParseError::Fatal(FatalError::at(p, FatalKind::ExpectedCloseParen)))
    } else {
        match spec_tuple_elems(src, p, depth) {
            Ok((elems, end)) => Ok((Ty::Tuple(TyTuple { span: Span { start: pos, end }, elems }), end)),
            Err(f) => Err(ParseError::Fatal(f)),
        }
    }
}

/// The elements of a tuple from `p`, just after the opening parenthesis or a
/// comma and its whitespace, up to and including the closing parenthesis.
pub open spec fn spec_tuple_elems(src: Seq<char>, p: usize, depth: usize) -> Result<(TyList, usize), FatalError>
    decreases src.len() - p, 4nat,
    when src.len() <= usize::MAX
{
    if char_at(src, p, ')') {
        Ok((TyList::Nil, (p + 1) as usize))
    } else {
        match spec_nested_ty(src, p, depth) {
            Err(f) => Err(f),
            Ok((t, e)) => {
                let q = spec_skip_ws(src, e);
                let r = spec_skip_ws(src, (q + 1) as usize);
                if char_at(src, q, ',') && advances(src, p, r) {
                    match spec_tuple_elems(src, r, depth) {
                        Ok((rest, end)) => Ok((TyList::Cons(Box::new(t), Box::new(rest)), end)),
                        Err(f) => Err(f),
                    }
                } else if char_at(src, q, ')') {
                    Ok((TyList::Cons(Box::new(t), Box::new(TyList::Nil)), (q + 1) as usize))
                } else {
                    Err(FatalError::at(q, FatalKind::ExpectedCloseParen))
                }
            },
        }
    }
}

/// `[ ty ; expr ]`: commits once the opening bracket is read.
pub open spec fn spec_array_ty(src: Seq<char>, pos: usize, depth: usize) -> ParseResult<Ty, (), FatalError>
    decreases src.len() - pos, 0nat,
    when src.len() <= usize::MAX
{
    let p = spec_skip_ws(src, (pos + 1) as usize);
    if !char_at(src, pos, '[') {
        Err(ParseError::Recoverable(()))
    } else if !advances(src, pos, p) {
        Err(ParseError::Fatal(FatalError::at(p, FatalKind::ExpectedType)))
    } else {
        match spec_nested_ty(src, p, depth) {
            Err(f) => Err(ParseError::Fatal(f)),
            Ok((elem, e)) => {
                let q = spec_skip_ws(src, e);
                let s = spec_skip_ws(src, (q + 1) as usize);
                if !char_at(src, q, ';') {
                    Err(ParseError::Fatal(FatalError::at(q, FatalKind::ExpectedSemicolon)))
                } else {
                    match spec_committed(
                        spec_expr(src, s),
                        FatalError::at(s, FatalKind::ExpectedExpression),
                    ) {
                        Err(f) => Err(ParseError::Fatal(f)),
                        Ok((length, e2)) => {
                            let c = spec_skip_ws(src, e2);
                            if char_at(src, c, ']') {
                                Ok(
                                    (
                                        Ty::Array(
                                            TyArray {
                                                span: Span { start: pos, end: (c + 1) as usize },
                                                elem: Box::new(elem),
                                                length: Box::new(length),
                                            },
                                        ),
                                        (c + 1) as usize,
                                    ),
                                )
                            } else {
                                Err(
                                    ParseError::Fatal(
                                        FatalError::at(c, FatalKind::ExpectedCloseBracket),
                                    ),
                                )
                            }
                        },
                    }
                }
            },
        }
    }
}

/// The alternatives of the type grammar. As parsers they read a type that
/// no tuple or array encloses.
#[derive(Clone, Copy, Debug, PartialEq, Eq, Structural)]
pub enum TyAlternative {
    Str,
    Path,
    Tuple,
    Array,
}

pub open spec fn spec_ty_alternative(alt: TyAlternative, src: Seq<char>, pos: usize, depth: usize) -> ParseResult<
    Ty,
    (),
    FatalError,
>
    decreases src.len() - pos, 1nat,
    when src.len() <= usize::MAX
{
    match alt {
        TyAlternative::Str => spec_str_ty(src, pos),
        TyAlternative::Path => spec_path_ty(src, pos),
        TyAlternative::Tuple => spec_tuple_ty(src, pos, depth),
        TyAlternative::Array => spec_array_ty(src, pos, depth),
    }
}

/// The order in which the alternatives are tried.
pub open spec fn ty_alternatives() -> Seq<TyAlternative> {
    seq![TyAlternative::Str, TyAlternative::Path, TyAlternative::Tuple, TyAlternative::Array]
}

/// The ordered choice over the alternatives, with a recoverable failure of
/// all of them turned into an `ExpectedTypeError` at `pos`.
pub open spec fn expected_type_at(r: ParseResult<Ty, (), FatalError>, pos: usize) -> ParseResult<
    Ty,
    ExpectedTypeError,
    FatalError,
> {
    match r {
        Ok(x) => Ok(x),
        Err(ParseError::Recoverable(_)) => Err(ParseError::Recoverable(ExpectedTypeError { position: pos })),
        Err(ParseError::Fatal(f)) => Err(ParseError::Fatal(f)),
    }
}

/// A type: the first alternative that applies, in the order of
/// `ty_alternatives`; when none applies, an `ExpectedTypeError` at `pos`.
/// `depth` counts the tuples and arrays that enclose it.
pub open spec fn spec_ty(src: Seq<char>, pos: usize, depth: usize) -> ParseResult<Ty, ExpectedTypeError, FatalError>
    decreases src.len() - pos, 2nat,
    when src.len() <= usize::MAX
{
    let r = match spec_ty_alternative(TyAlternative::Str, src, pos, depth) {
        Err(ParseError::Recoverable(_)) => match spec_ty_alternative(TyAlternative::Path, src, pos, depth) {
            Err(ParseError::Recoverable(_)) => match spec_ty_alternative(
                TyAlternative::Tuple,
                src,
                pos,
                depth,
            ) {
                Err(ParseError::Recoverable(_)) => spec_ty_alternative(TyAlternative::Array, src, pos, depth),
                r => r,
            },
            r => r,
        },
        r => r,
    };
    expected_type_at(r, pos)
}

impl Parser for TyAlternative {
    type Output = Ty;
    type Error = ();
    type Fatal = FatalError;

    open spec fn spec_parse(&self, src: Seq<char>, pos: usize) -> ParseResult<Ty, (), FatalError> {
        spec_ty_alternative(*self, src, pos, 0)
    }

    fn parse(&self, src: &[char], pos: usize) -> (r: ParseResult<Ty, (), FatalError>) {
        let _len = src.len();
        match self {
            TyAlternative::Str => str_ty(src, pos),
            TyAlternative::Path => path_ty(src, pos),
            TyAlternative::Tuple => tuple_ty(src, pos, 0),
            TyAlternative::Array => array_ty(src, pos, 0),
        }
    }
}

/// The parser of type expressions: the alternatives of the type grammar
/// under ordered choice, reporting `ExpectedTypeError` when none applies.
pub struct TyParser {
    alts: Or<TyAlternative>,
}

impl TyParser {
    pub closed spec fn alternatives(&self) -> Seq<TyAlternative> {
        self.alts.alternatives()
    }
}

/// Builds the parser of type expressions.
pub fn ty() -> (r: TyParser)
    ensures
        r.alternatives() == ty_alternatives(),
{
    let alts = vec![TyAlternative::Str, TyAlternative::Path, TyAlternative::Tuple, TyAlternative::Array];
    let alts = Or::new(alts).unwrap();
    TyParser { alts }
}

impl Parser for TyParser {
    type Output = Ty;
    type Error = ExpectedTypeError;
    type Fatal = FatalError;

    open spec fn spec_parse(&self, src: Seq<char>, pos: usize) -> ParseResult<Ty, ExpectedTypeError, FatalError> {
        expected_type_at(spec_first_match(self.alternatives(), src, pos), pos)
    }

    fn parse(&self, src: &[char], pos: usize) -> (r: ParseResult<Ty, ExpectedTypeError, FatalError>) {
        match self.alts.parse(src, pos) {
            Ok(x) => Ok(x),
            Err(ParseError::Recoverable(_)) => Err(ParseError::Recoverable(ExpectedTypeError { position: pos })),
            Err(ParseError::Fatal(f)) => Err(ParseError::Fatal(f)),
        }
    }
}

/// The ordered choice over `ty_alternatives` is the type grammar.
pub proof fn lemma_ty_parser_is_grammar(src: Seq<char>, pos: usize)
    requires
        src.len() <= usize::MAX,
    ensures
        expected_type_at(spec_first_match(ty_alternatives(), src, pos), pos) == spec_ty(src, pos, 0),
{
    let alts = ty_alternatives();
    reveal_with_fuel(spec_first_match, 5);
    assert(alts.drop_first() =~= seq![TyAlternative::Path, TyAlternative::Tuple, TyAlternative::Array]);
    assert(alts.drop_first().drop_first() =~= seq![TyAlternative::Tuple, TyAlternative::Array]);
    assert(alts.drop_first().drop_first().drop_first() =~= seq![TyAlternative::Array]);
    assert(alts.drop_first().drop_first().drop_first().drop_first() =~= Seq::<TyAlternative>::empty());
}

/// A type at `pos`, trying the alternatives directly in the order of
/// `ty_alternatives`. Nested types are parsed through this function, so the
/// recursion of the grammar never passes through a trait method.
fn ty_at(src: &[char], pos: usize, depth: usize) -> (r: ParseResult<Ty, ExpectedTypeError, FatalError>)
    requires
        pos <= src@.len(),
        depth <= MAX_NESTING,
    ensures
        r == spec_ty(src@, pos, depth),
        r matches Ok((_, end)) ==> pos < end <= src@.len(),
    decreases src@.len() - pos, 2nat,
{
    let _len = src.len();
    let mut r = str_ty(src, pos);
    if matches!(r, Err(ParseError::Recoverable(_))) {
        r = path_ty(src, pos);
        if matches!(r, Err(ParseError::Recoverable(_))) {
            r = tuple_ty(src, pos, depth);
            if matches!(r, Err(ParseError::Recoverable(_))) {
                r = array_ty(src, pos, depth);
            }
        }
    }
    match r {
        Ok(x) => Ok(x),
        Err(ParseError::Recoverable(_)) => Err(ParseError::Recoverable(ExpectedTypeError { position: pos })),
        Err(ParseError::Fatal(f)) => Err(ParseError::Fatal(f)),
    }
}

fn nested_ty(src: &[char], p: usize, depth: usize) -> (r: Result<(Ty, usize), FatalError>)
    requires
        p <= src@.len(),
        depth <= MAX_NESTING,
    ensures
        r == spec_nested_ty(src@, p, depth),
        r matches Ok((_, end)) ==> p < end <= src@.len(),
    decreases src@.len() - p, 3nat,
{
    let _len = src.len();
    if depth < MAX_NESTING {
        committed(ty_at(src, p, depth + 1), FatalError::new(p, FatalKind::ExpectedType))
    } else {
        Err(FatalError::new(p, FatalKind::NestingTooDeep))
    }
}

fn str_ty(src: &[char], pos: usize) -> (r: ParseResult<Ty, (), FatalError>)
    requires
        pos <= src@.len(),
    ensures
        r == spec_str_ty(src@, pos),
        r matches Ok((_, end)) ==> pos < end <= src@.len(),
{
    let _len = src.len();
    if !is_str_keyword_at(src, pos) {
        return Err(ParseError::Recoverable(()));
    }
    let b = skip_ws(src, pos + 3);
    if !is_char_at(src, b, '[') {
        return Err(ParseError::Recoverable(()));
    }
    let p = skip_ws(src, b + 1);
    match committed(expr(src, p), FatalError::new(p, FatalKind::ExpectedExpression)) {
        Err(f) => Err(ParseError::Fatal(f)),
        Ok((length, e)) => {
            let q = skip_ws(src, e);
            if is_char_at(src, q, ']') {
                let length = SquareBrackets { span: Span::new(b, q + 1), inner: Box::new(length) };
                Ok((Ty::Str { str_token: Span::new(pos, pos + 3), length }, q + 1))
            } else {
                Err(ParseError::Fatal(FatalError::new(q, FatalKind::ExpectedCloseBracket)))
            }
        },
    }
}

fn path_ty(src: &[char], pos: usize) -> (r: ParseResult<Ty, (), FatalError>)
    requires
        pos <= src@.len(),
    ensures
        r == spec_path_ty(src@, pos),
        r matches Ok((_, end)) ==> pos < end <= src@.len(),
{
    match path_type(src, pos) {
        Ok((path, e)) => Ok((Ty::Path { path }, e)),
        Err(e) => Err(e),
    }
}

fn tuple_ty(src: &[char], pos: usize, depth: usize) -> (r: ParseResult<Ty, (), FatalError>)
    requires
        pos <= src@.len(),
        depth <= MAX_NESTING,
    ensures
        r == spec_tuple_ty(src@, pos, depth),
        r matches Ok((_, end)) ==> pos < end <= src@.len(),
    decreases src@.len() - pos, 1nat,
{
    let _len = src.len();
    if !is_char_at(src, pos, '(') {
        return Err(ParseError::Recoverable(()));
    }
    let p = skip_ws(src, pos + 1);
    match tuple_elems(src, p, depth) {
        Ok((elems, end)) => Ok((Ty::Tuple(TyTuple { span: Span::new(pos, end), elems }), end)),
        Err(f) => Err(ParseError::Fatal(f)),
    }
}

fn tuple_elems(src: &[char], p: usize, depth: usize) -> (r: Result<(TyList, usize), FatalError>)
    requires
        p <= src@.len(),
        depth <= MAX_NESTING,
    ensures
        r == spec_tuple_elems(src@, p, depth),
        r matches Ok((_, end)) ==> p < end <= src@.len(),
    decreases src@.len() - p, 4nat,
{
    let _len = src.len();
    if is_char_at(src, p, ')') {
        return Ok((TyList::Nil, p + 1));
    }
    match nested_ty(src, p, depth) {
        Err(f) => Err(f),
        Ok((t, e)) => {
            let q = skip_ws(src, e);
            if is_char_at(src, q, ',') {
                let r = skip_ws(src, q + 1);
                match tuple_elems(src, r, depth) {
                    Ok((rest, end)) => Ok((TyList::Cons(Box::new(t), Box::new(rest)), end)),
                    Err(f) => Err(f),
                }
            } else if is_char_at(src, q, ')') {
                Ok((TyList::Cons(Box::new(t), Box::new(TyList::Nil)), q + 1))
            } else {
                Err(FatalError::new(q, FatalKind::ExpectedCloseParen))
            }
        },
    }
}

fn array_ty(src: &[char], pos: usize, depth: usize) -> (r: ParseResult<Ty, (), FatalError>)
    requires
        pos <= src@.len(),
        depth <= MAX_NESTING,
    ensures
        r == spec_array_ty(src@, pos, depth),
        r matches Ok((_, end)) ==> pos < end <= src@.len(),
    decreases src@.len() - pos, 1nat,
{
    let _len = src.len();
    if !is_char_at(src, pos, '[') {
        return Err(ParseError::Recoverable(()));
    }
    let p = skip_ws(src, pos + 1);
    match nested_ty(src, p, depth) {
        Err(f) => Err(ParseError::Fatal(f)),
        Ok((elem, e)) => {
            let q = skip_ws(src, e);
            if !is_char_at(src, q, ';') {
                return Err(ParseError::Fatal(FatalError::new(q, FatalKind::ExpectedSemicolon)));
            }
            let s = skip_ws(src, q + 1);
            match committed(expr(src, s), FatalError::new(s, FatalKind::ExpectedExpression)) {
                Err(f) => Err(ParseError::Fatal(f)),
                Ok((length, e2)) => {
                    let c = skip_ws(src, e2);
                    if is_char_at(src, c, ']') {
                        let a = TyArray {
                            span: Span::new(pos, c + 1),
                            elem: Box::new(elem),
                            length: Box::new(length),
                        };
                        Ok((Ty::Array(a), c + 1))
                    } else {
                        Err(ParseError::Fatal(FatalError::new(c, FatalKind::ExpectedCloseBracket)))
                    }
                },
            }
        },
    }
}

} // verus!
