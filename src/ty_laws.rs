use vstd::prelude::*;
use crate::expr::{expr_starts, lemma_expr, lemma_path_from, spec_expr};
use crate::lexical::{char_at, ident_start, lemma_skip_ws_bounds, spec_skip_ws, str_keyword_at};
use crate::parser::{is_recoverable, ParseError};
use crate::span::{Span, Spanned};
use crate::ty::{
    advances, spec_array_ty, spec_nested_ty, spec_tuple_elems, spec_tuple_ty, spec_ty,
    spec_ty_alternative, Ty, TyAlternative, MAX_NESTING,
};

verus! {

/// The text under a parsed type's span begins and ends as its production
/// requires: `(`..`)`, `[`..`]`, `str`..`]`, or an identifier start.
pub open spec fn delimited(src: Seq<char>, t: Ty) -> bool {
    let s = t.spec_span();
    &&& s.start < s.end <= src.len()
    &&& match t {
        Ty::Tuple(_) => src[s.start as int] == '(' && src[s.end - 1] == ')',
        Ty::Array(_) => src[s.start as int] == '[' && src[s.end - 1] == ']',
        Ty::Str { .. } => src.subrange(s.start as int, s.start + 3) == seq!['s', 't', 'r'] && src[s.end - 1] == ']',
        Ty::Path { .. } => ident_start(src[s.start as int]),
    }
}

/// What a successful parse from `pos` to `e` owes: it moved forward, its
/// span is exactly the consumed range, and the text there is delimited.
pub open spec fn well_consumed(src: Seq<char>, pos: usize, t: Ty, e: usize) -> bool {
    &&& pos < e <= src.len()
    &&& t.spec_span() == (Span { start: pos, end: e })
    &&& delimited(src, t)
}

/// The leading input with which an alternative commits.
pub open spec fn commits(alt: TyAlternative, src: Seq<char>, pos: usize) -> bool {
    match alt {
        TyAlternative::Str => str_keyword_at(src, pos) && char_at(
            src,
            spec_skip_ws(src, (pos + 3) as usize),
            '[',
        ),
        TyAlternative::Path => pos < src.len() && ident_start(src[pos as int]),
        TyAlternative::Tuple => char_at(src, pos, '('),
        TyAlternative::Array => char_at(src, pos, '['),
    }
}

/// A parsed alternative's span is exactly the input it consumed, from the
/// starting position to the position it returns.
pub proof fn lemma_alternative_span(alt: TyAlternative, src: Seq<char>, pos: usize, depth: usize)
    requires
        pos <= src.len() <= usize::MAX,
    ensures
        spec_ty_alternative(alt, src, pos, depth) matches Ok((t, e)) ==> t.spec_span() == (Span { start: pos, end: e }) && e <= src.len(),
{
    lemma_alternative_result(alt, src, pos, depth);
}

/// A parsed type's span is exactly the input it consumed.
pub proof fn lemma_ty_span(src: Seq<char>, pos: usize, depth: usize)
    requires
        pos <= src.len() <= usize::MAX,
    ensures
        spec_ty(src, pos, depth) matches Ok((t, e)) ==> t.spec_span() == (Span { start: pos, end: e }) && pos < e <= src.len(),
{
    lemma_ty_result(src, pos, depth);
}

/// Once an alternative has read its committing input, it never fails
/// recoverably; before that, it always does.
pub proof fn lemma_commitment(alt: TyAlternative, src: Seq<char>, pos: usize, depth: usize)
    requires
        pos <= src.len() <= usize::MAX,
    ensures
        is_recoverable(spec_ty_alternative(alt, src, pos, depth)) <==> !commits(alt, src, pos),
{
    lemma_alternative_result(alt, src, pos, depth);
}

/// A type fails recoverably exactly when no alternative commits at `pos`,
/// and the error then names `pos`.
pub proof fn lemma_expected_type(src: Seq<char>, pos: usize, depth: usize)
    requires
        pos <= src.len() <= usize::MAX,
    ensures
        is_recoverable(spec_ty(src, pos, depth)) <==> (forall|alt: TyAlternative| !commits(alt, src, pos)),
        spec_ty(src, pos, depth) matches Err(ParseError::Recoverable(err)) ==> err.position == pos,
{
    lemma_alternative_result(TyAlternative::Str, src, pos, depth);
    lemma_alternative_result(TyAlternative::Path, src, pos, depth);
    lemma_alternative_result(TyAlternative::Tuple, src, pos, depth);
    lemma_alternative_result(TyAlternative::Array, src, pos, depth);
    if !is_recoverable(spec_ty(src, pos, depth)) {
        assert(commits(TyAlternative::Str, src, pos) || commits(TyAlternative::Path, src, pos)
            || commits(TyAlternative::Tuple, src, pos) || commits(TyAlternative::Array, src, pos));
    }
}

/// Slicing the source by a parsed type's span gives back the consumed text,
/// and that text opens and closes as the type's production requires.
pub proof fn lemma_round_trip(src: Seq<char>, pos: usize, depth: usize)
    requires
        pos <= src.len() <= usize::MAX,
    ensures
        spec_ty(src, pos, depth) matches Ok((t, e)) ==> delimited(src, t) && src.subrange(
            t.spec_span().start as int,
            t.spec_span().end as int,
        ) == src.subrange(pos as int, e as int),
{
    lemma_ty_result(src, pos, depth);
}

proof fn lemma_ty_result(src: Seq<char>, pos: usize, depth: usize)
    requires
        pos <= src.len() <= usize::MAX,
    ensures
        spec_ty(src, pos, depth) matches Ok((t, e)) ==> well_consumed(src, pos, t, e),
    decreases src.len() - pos, 2nat,
{
    lemma_alternative_result(TyAlternative::Str, src, pos, depth);
    lemma_alternative_result(TyAlternative::Path, src, pos, depth);
    lemma_alternative_result(TyAlternative::Tuple, src, pos, depth);
    lemma_alternative_result(TyAlternative::Array, src, pos, depth);
}

proof fn lemma_alternative_result(alt: TyAlternative, src: Seq<char>, pos: usize, depth: usize)
    requires
        pos <= src.len() <= usize::MAX,
    ensures
        spec_ty_alternative(alt, src, pos, depth) matches Ok((t, e)) ==> well_consumed(src, pos, t, e),
        is_recoverable(spec_ty_alternative(alt, src, pos, depth)) <==> !commits(alt, src, pos),
    decreases src.len() - pos, 1nat,
{
    match alt {
        TyAlternative::Str => {
            if str_keyword_at(src, pos) {
                let b = spec_skip_ws(src, (pos + 3) as usize);
                lemma_skip_ws_bounds(src, (pos + 3) as usize);
                if char_at(src, b, '[') {
                    let p = spec_skip_ws(src, (b + 1) as usize);
                    lemma_skip_ws_bounds(src, (b + 1) as usize);
                    lemma_expr(src, p);
                    if let Ok((_, e)) = spec_expr(src, p) {
                        lemma_skip_ws_bounds(src, e);
                        assert(src.subrange(pos as int, pos + 3) =~= seq!['s', 't', 'r']);
                    }
                }
            }
        },
        TyAlternative::Path => {
            if pos < src.len() && ident_start(src[pos as int]) {
                lemma_path_from(src, pos, (pos + 1) as usize);
            }
        },
        TyAlternative::Tuple => lemma_tuple_result(src, pos, depth),
        TyAlternative::Array => lemma_array_result(src, pos, depth),
    }
}

proof fn lemma_tuple_result(src: Seq<char>, pos: usize, depth: usize)
    requires
        pos <= src.len() <= usize::MAX,
    ensures
        spec_tuple_ty(src, pos, depth) matches Ok((t, e)) ==> well_consumed(src, pos, t, e),
    decreases src.len() - pos, 0nat,
{
    let p = spec_skip_ws(src, (pos + 1) as usize);
    if char_at(src, pos, '(') && advances(src, pos, p) {
        lemma_elems_result(src, p, depth);
    }
}

proof fn lemma_elems_result(src: Seq<char>, p: usize, depth: usize)
    requires
        p <= src.len() <= usize::MAX,
    ensures
        spec_tuple_elems(src, p, depth) matches Ok((_, end)) ==> p < end <= src.len() && src[end - 1] == ')',
    decreases src.len() - p, 4nat,
{
    if !char_at(src, p, ')') {
        lemma_nested_result(src, p, depth);
        if let Ok((_, e)) = spec_nested_ty(src, p, depth) {
            lemma_skip_ws_bounds(src, e);
            let q = spec_skip_ws(src, e);
            if char_at(src, q, ',') {
                lemma_skip_ws_bounds(src, (q + 1) as usize);
                let r = spec_skip_ws(src, (q + 1) as usize);
                if advances(src, p, r) {
                    lemma_elems_result(src, r, depth);
                }
            }
        }
    }
}

proof fn lemma_nested_result(src: Seq<char>, p: usize, depth: usize)
    requires
        p <= src.len() <= usize::MAX,
    ensures
        spec_nested_ty(src, p, depth) matches Ok((_, e)) ==> p < e <= src.len(),
    decreases src.len() - p, 3nat,
{
    if depth < MAX_NESTING {
        lemma_ty_result(src, p, (depth + 1) as usize);
    }
}

proof fn lemma_array_result(src: Seq<char>, pos: usize, depth: usize)
    requires
        pos <= src.len() <= usize::MAX,
    ensures
        spec_array_ty(src, pos, depth) matches Ok((t, e)) ==> well_consumed(src, pos, t, e),
    decreases src.len() - pos, 0nat,
{
    let p = spec_skip_ws(src, (pos + 1) as usize);
    if char_at(src, pos, '[') && advances(src, pos, p) {
        lemma_nested_result(src, p, depth);
        if let Ok((_, e)) = spec_nested_ty(src, p, depth) {
            lemma_skip_ws_bounds(src, e);
            let q = spec_skip_ws(src, e);
            if char_at(src, q, ';') {
                lemma_skip_ws_bounds(src, (q + 1) as usize);
                let s = spec_skip_ws(src, (q + 1) as usize);
                lemma_expr(src, s);
                if let Ok((_, e2)) = spec_expr(src, s) {
                    lemma_skip_ws_bounds(src, e2);
                }
            }
        }
    }
}

} // verus!
