use new_parser::diagnostic::{FatalError, FatalKind};
use new_parser::expr::Expr;
use new_parser::parser::{Or, ParseError, Parser};
use new_parser::span::{Span, Spanned};
use new_parser::ty::{ty, ExpectedTypeError, Ty, TyAlternative, TyList};

fn chars(s: &str) -> Vec<char> {
    s.chars().collect()
}

fn fatal_at(src: &str, position: usize, kind: FatalKind) {
    let src = chars(src);
    match ty().parse(&src, 0) {
        Err(ParseError::Fatal(f)) => assert_eq!(f, FatalError { position, kind }),
        Ok((t, end)) => panic!("parsed {:?} up to {}", t, end),
        Err(ParseError::Recoverable(e)) => panic!("recoverable at {}", e.position),
    }
}

fn literal_value(e: &Expr) -> u64 {
    match e {
        Expr::Literal { value, .. } => *value,
        Expr::Path(_) => panic!("not a literal"),
    }
}

#[test]
fn str_type_with_literal_length() {
    let src = chars("str[3]");
    let (t, end) = ty().parse(&src, 0).ok().unwrap();
    assert_eq!(end, 6);
    assert_eq!(t.span(), Span { start: 0, end: 6 });
    match &t {
        Ty::Str { str_token, length } => {
            assert_eq!(*str_token, Span { start: 0, end: 3 });
            assert_eq!(length.span, Span { start: 3, end: 6 });
            assert_eq!(literal_value(&length.inner), 3);
            assert_eq!(length.inner.span(), Span { start: 4, end: 5 });
        },
        other => panic!("expected a str type, got {:?}", other),
    }
}

#[test]
fn unterminated_str_type_is_fatal_at_four() {
    fatal_at("str[", 4, FatalKind::ExpectedExpression);
}

#[test]
fn tuple_of_two_paths() {
    let src = chars("(A, B)");
    let (t, end) = ty().parse(&src, 0).ok().unwrap();
    assert_eq!(end, 6);
    assert_eq!(t.span(), Span { start: 0, end: 6 });
    match &t {
        Ty::Tuple(tuple) => {
            assert_eq!(tuple.elems.len(), 2);
            match &tuple.elems {
                TyList::Cons(a, rest) => {
                    assert_eq!(a.span(), Span { start: 1, end: 2 });
                    match &**rest {
                        TyList::Cons(b, last) => {
                            assert_eq!(b.span(), Span { start: 4, end: 5 });
                            assert!(matches!(**last, TyList::Nil));
                        },
                        TyList::Nil => panic!("one element only"),
                    }
                },
                TyList::Nil => panic!("no elements"),
            }
        },
        other => panic!("expected a tuple, got {:?}", other),
    }
}

#[test]
fn number_is_expected_type_error() {
    let src = chars("123");
    match ty().parse(&src, 0) {
        Err(ParseError::Recoverable(e)) => assert_eq!(e, ExpectedTypeError { position: 0 }),
        _ => panic!("expected a recoverable error"),
    }
}

#[test]
fn array_of_path_with_length() {
    let src = chars("[T; 4]");
    let (t, end) = ty().parse(&src, 0).ok().unwrap();
    assert_eq!(end, 6);
    match &t {
        Ty::Array(a) => {
            assert_eq!(a.span, Span { start: 0, end: 6 });
            assert!(matches!(*a.elem, Ty::Path { .. }));
            assert_eq!(a.elem.span(), Span { start: 1, end: 2 });
            assert_eq!(literal_value(&a.length), 4);
        },
        other => panic!("expected an array, got {:?}", other),
    }
}

#[test]
fn span_stops_before_trailing_input() {
    let src = chars("(A, B) rest");
    let (t, end) = ty().parse(&src, 0).ok().unwrap();
    assert_eq!(end, 6);
    assert_eq!(t.span(), Span { start: 0, end: 6 });
    let src = chars("a::b::c + 1");
    let (t, end) = ty().parse(&src, 0).ok().unwrap();
    assert_eq!(end, 7);
    assert_eq!(t.span(), Span { start: 0, end: 7 });
}

#[test]
fn parse_from_inner_position() {
    let src = chars("x: [u8; 32]");
    let (t, end) = ty().parse(&src, 3).ok().unwrap();
    assert_eq!(end, 11);
    assert_eq!(t.span(), Span { start: 3, end: 11 });
}

#[test]
fn first_listed_alternative_wins() {
    let src = chars("str[3]");
    let path_first = Or::new(vec![TyAlternative::Path, TyAlternative::Str]).unwrap();
    let (t, end) = path_first.parse(&src, 0).ok().unwrap();
    assert!(matches!(t, Ty::Path { .. }));
    assert_eq!(end, 3);
    let str_first = Or::new(vec![TyAlternative::Str, TyAlternative::Path]).unwrap();
    let (t, end) = str_first.parse(&src, 0).ok().unwrap();
    assert!(matches!(t, Ty::Str { .. }));
    assert_eq!(end, 6);
}

#[test]
fn empty_alternation_is_refused() {
    let none: Vec<TyAlternative> = Vec::new();
    assert!(Or::new(none).is_none());
    assert_eq!(Or::new(vec![TyAlternative::Tuple]).unwrap().len(), 1);
}

#[test]
fn str_without_bracket_is_a_path() {
    let src = chars("str");
    let (t, end) = ty().parse(&src, 0).ok().unwrap();
    assert!(matches!(t, Ty::Path { .. }));
    assert_eq!(end, 3);
    let src = chars("string[3]");
    let (t, end) = ty().parse(&src, 0).ok().unwrap();
    assert!(matches!(t, Ty::Path { .. }));
    assert_eq!(end, 6);
}

#[test]
fn truncations_after_commitment_are_fatal() {
    for s in ["[", "[T", "[T;", "[T; 4", "(", "(A", "(A,", "str[", "str[3", "str [ 3", "a::"] {
        let src = chars(s);
        match ty().parse(&src, 0) {
            Err(ParseError::Fatal(_)) => {},
            _ => panic!("{} should fail fatally", s),
        }
    }
}

#[test]
fn recoverable_failure_leaves_input_for_next_alternative() {
    let src = chars("abc");
    let tuple_only = Or::new(vec![TyAlternative::Tuple]).unwrap();
    assert!(matches!(tuple_only.parse(&src, 0), Err(ParseError::Recoverable(()))));
    let tuple_then_path = Or::new(vec![TyAlternative::Tuple, TyAlternative::Path]).unwrap();
    let (t, end) = tuple_then_path.parse(&src, 0).ok().unwrap();
    assert_eq!(end, 3);
    assert_eq!(t.span(), Span { start: 0, end: 3 });
}

#[test]
fn all_alternatives_recoverable() {
    let src = chars(")");
    let o = Or::new(vec![TyAlternative::Str, TyAlternative::Tuple, TyAlternative::Array]).unwrap();
    assert!(matches!(o.parse(&src, 0), Err(ParseError::Recoverable(()))));
    let src = chars("");
    match ty().parse(&src, 0) {
        Err(ParseError::Recoverable(e)) => assert_eq!(e.position, 0),
        _ => panic!("empty input is no type"),
    }
}

#[test]
fn span_reslices_to_delimited_text() {
    let src = chars("((A, B), [C; n])");
    let (t, _) = ty().parse(&src, 0).ok().unwrap();
    let text: String = t.span().slice(&src).into_iter().collect();
    assert_eq!(text, "((A, B), [C; n])");
    let src = chars("[ str [ 10 ] ; 2 ];");
    let (t, end) = ty().parse(&src, 0).ok().unwrap();
    assert_eq!(end, 18);
    let text: String = t.span().slice(&src).into_iter().collect();
    assert!(text.starts_with('[') && text.ends_with(']'));
}

#[test]
fn nested_tuple_elements() {
    let src = chars("(A, (B, C), [D; 2],)");
    let (t, end) = ty().parse(&src, 0).ok().unwrap();
    assert_eq!(end, 20);
    match &t {
        Ty::Tuple(tuple) => assert_eq!(tuple.elems.len(), 3),
        _ => panic!("expected a tuple"),
    }
    let src = chars("()");
    match ty().parse(&src, 0).ok().unwrap().0 {
        Ty::Tuple(tuple) => assert_eq!(tuple.elems.len(), 0),
        _ => panic!("expected a tuple"),
    }
}

#[test]
fn each_fatal_kind() {
    fatal_at("(,)", 1, FatalKind::ExpectedType);
    fatal_at("[;4]", 1, FatalKind::ExpectedType);
    fatal_at("[T; ]", 4, FatalKind::ExpectedExpression);
    fatal_at("a::1", 3, FatalKind::ExpectedIdentifier);
    fatal_at("[T 4]", 3, FatalKind::ExpectedSemicolon);
    fatal_at("(A B)", 3, FatalKind::ExpectedCloseParen);
    fatal_at("str[3", 5, FatalKind::ExpectedCloseBracket);
    fatal_at("[T; 4 5]", 6, FatalKind::ExpectedCloseBracket);
    fatal_at("str[99999999999999999999]", 4, FatalKind::LiteralTooLarge);
}

#[test]
fn nesting_depth_is_bounded() {
    let deep: String = "(".repeat(129) + "A" + &")".repeat(129);
    let src = chars(&deep);
    match ty().parse(&src, 0) {
        Err(ParseError::Fatal(f)) => assert_eq!(f, FatalError { position: 129, kind: FatalKind::NestingTooDeep }),
        _ => panic!("nesting beyond the bound should fail fatally"),
    }
    let fits: String = "[".repeat(128) + "A" + &"; 1]".repeat(128);
    let src = chars(&fits);
    let (t, end) = ty().parse(&src, 0).ok().unwrap();
    assert_eq!(end, src.len());
    assert_eq!(t.span(), Span { start: 0, end: src.len() });
}

#[test]
fn largest_literal_fits() {
    let src = chars("str[18446744073709551615]");
    match ty().parse(&src, 0).ok().unwrap().0 {
        Ty::Str { length, .. } => assert_eq!(literal_value(&length.inner), u64::MAX),
        _ => panic!("expected a str type"),
    }
}

#[test]
fn unicode_identifiers() {
    let src = chars("élan::Ωmega");
    let (t, end) = ty().parse(&src, 0).ok().unwrap();
    assert!(matches!(t, Ty::Path { .. }));
    assert_eq!(end, 11);
    let src = chars("_x1 y");
    let (_, end) = ty().parse(&src, 0).ok().unwrap();
    assert_eq!(end, 3);
    let src = chars("·x");
    assert!(matches!(ty().parse(&src, 0), Err(ParseError::Recoverable(_))));
}

#[test]
fn join_covers_both_spans() {
    let a = Span::new(2, 5);
    let b = Span::new(7, 9);
    assert_eq!(Span::join(a, b), Span { start: 2, end: 9 });
    assert_eq!(Span::join(b, a), Span { start: 2, end: 9 });
    assert_eq!(Span::join(a, Span::new(3, 4)), a);
    assert_eq!(a.start(), 2);
    assert_eq!(a.end(), 5);
}


