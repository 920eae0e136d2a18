use std::cmp::Ordering;

use lex_error::{
    ClosingDelimiter, Ident, LexError, LexErrorKind, LexErrorTag, OpeningDelimiter, Span, Spanned,
};

fn span(start: usize, end: usize) -> Span {
    Span::new(start, end, Some(1)).unwrap()
}

fn ident(name: &str, start: usize, end: usize) -> Ident {
    Ident::new(name.to_string(), span(start, end))
}

/// One value of every variant, in declaration order.
fn one_of_each() -> Vec<LexErrorKind> {
    vec![
        LexErrorKind::UnclosedMultilineComment { unclosed_indices: vec![0, 5] },
        LexErrorKind::UnexpectedCloseDelimiter {
            position: 3,
            close_delimiter: ClosingDelimiter::Brace,
        },
        LexErrorKind::MismatchedDelimiters {
            open_position: 0,
            close_position: 1,
            open_delimiter: OpeningDelimiter::Parenthesis,
            close_delimiter: ClosingDelimiter::SquareBracket,
        },
        LexErrorKind::UnclosedDelimiter {
            open_position: 2,
            open_delimiter: OpeningDelimiter::Brace,
        },
        LexErrorKind::UnclosedStringLiteral { position: 0 },
        LexErrorKind::UnclosedCharLiteral { position: 1 },
        LexErrorKind::ExpectedCloseQuote { position: 2 },
        LexErrorKind::IncompleteHexIntLiteral { position: 0 },
        LexErrorKind::IncompleteBinaryIntLiteral { position: 0 },
        LexErrorKind::IncompleteOctalIntLiteral { position: 0 },
        LexErrorKind::InvalidIntSuffix { suffix: ident("xyz", 2, 5) },
        LexErrorKind::InvalidCharacter { position: 4, character: '$' },
        LexErrorKind::InvalidHexEscape,
        LexErrorKind::UnicodeEscapeMissingBrace { position: 3 },
        LexErrorKind::InvalidUnicodeEscapeDigit { position: 4 },
        LexErrorKind::UnicodeEscapeOutOfRange { position: 5 },
        LexErrorKind::UnicodeEscapeInvalidCharValue { span: span(1, 9) },
        LexErrorKind::InvalidEscapeCode { position: 6 },
    ]
}

/// Values that differ from each other in a single field, to exercise the order
/// within each variant.
fn near_pairs() -> Vec<LexErrorKind> {
    vec![
        LexErrorKind::UnclosedMultilineComment { unclosed_indices: vec![0] },
        LexErrorKind::UnclosedMultilineComment { unclosed_indices: vec![0, 5, 7] },
        LexErrorKind::UnclosedMultilineComment { unclosed_indices: vec![1] },
        LexErrorKind::UnexpectedCloseDelimiter {
            position: 3,
            close_delimiter: ClosingDelimiter::Parenthesis,
        },
        LexErrorKind::MismatchedDelimiters {
            open_position: 0,
            close_position: 1,
            open_delimiter: OpeningDelimiter::Brace,
            close_delimiter: ClosingDelimiter::SquareBracket,
        },
        LexErrorKind::InvalidIntSuffix { suffix: ident("xy", 2, 4) },
        LexErrorKind::InvalidIntSuffix { suffix: ident("xyz", 3, 6) },
        LexErrorKind::InvalidCharacter { position: 4, character: '#' },
        LexErrorKind::UnicodeEscapeInvalidCharValue { span: Span::new(1, 9, None).unwrap() },
    ]
}

fn all_kinds() -> Vec<LexErrorKind> {
    let mut v = one_of_each();
    v.extend(near_pairs());
    v
}

fn all_errors() -> Vec<LexError> {
    let mut v = Vec::new();
    for k in all_kinds() {
        v.push(LexError::new(span(0, 2), k.clone()));
        v.push(LexError::new(span(1, 2), k));
    }
    v
}

#[test]
fn span_returns_the_span_given_at_construction() {
    for (i, k) in all_kinds().into_iter().enumerate() {
        let s = Span::new(i, i + 3, Some(7)).unwrap();
        let e = LexError::new(s, k);
        assert_eq!(e.span(), s);
        assert_eq!(*e.span_ref(), s);
    }
}

#[test]
fn ident_reports_its_span_and_text() {
    let id = ident("xyz", 2, 5);
    assert_eq!(id.span(), span(2, 5));
    assert_eq!(id.as_str(), "xyz");
}

#[test]
fn span_new_refuses_a_backward_range() {
    assert!(Span::new(5, 2, None).is_none());
    let s = Span::new(2, 2, None).unwrap();
    assert_eq!((s.start, s.end, s.source_id), (2, 2, None));
}

#[test]
fn equal_exactly_when_span_and_kind_are_equal() {
    let a = LexError::new(span(0, 1), LexErrorKind::UnclosedStringLiteral { position: 0 });
    let b = LexError::new(span(0, 1), LexErrorKind::UnclosedStringLiteral { position: 0 });
    let other_span = LexError::new(span(0, 2), LexErrorKind::UnclosedStringLiteral { position: 0 });
    let other_field = LexError::new(span(0, 1), LexErrorKind::UnclosedStringLiteral { position: 1 });
    let other_variant = LexError::new(span(0, 1), LexErrorKind::UnclosedCharLiteral { position: 0 });
    assert_eq!(a, b);
    assert_ne!(a, other_span);
    assert_ne!(a, other_field);
    assert_ne!(a, other_variant);
    let c1 = LexErrorKind::UnclosedMultilineComment { unclosed_indices: vec![0, 5] };
    let c2 = LexErrorKind::UnclosedMultilineComment { unclosed_indices: vec![0, 5] };
    let c3 = LexErrorKind::UnclosedMultilineComment { unclosed_indices: vec![0, 6] };
    assert_eq!(c1, c2);
    assert_ne!(c1, c3);
    let s1 = LexErrorKind::InvalidIntSuffix { suffix: ident("xyz", 2, 5) };
    let s2 = LexErrorKind::InvalidIntSuffix { suffix: ident("xyw", 2, 5) };
    let s3 = LexErrorKind::InvalidIntSuffix { suffix: ident("xyz", 3, 6) };
    assert_ne!(s1, s2);
    assert_ne!(s1, s3);
    assert_eq!(s1, s1.clone());
}

#[test]
fn order_is_total_and_agrees_with_equality() {
    let all = all_errors();
    for a in &all {
        for b in &all {
            let ab = a.partial_cmp(b).unwrap();
            let ba = b.partial_cmp(a).unwrap();
            assert_eq!(ab == Ordering::Equal, a == b);
            assert_eq!(ab, ba.reverse());
            for c in &all {
                if a < b && b < c {
                    assert!(a < c);
                }
            }
        }
    }
}

#[test]
fn kinds_order_by_variant_then_payload() {
    let each = one_of_each();
    for i in 0..each.len() {
        for j in 0..each.len() {
            assert_eq!(each[i].partial_cmp(&each[j]), Some(i.cmp(&j)));
        }
    }
    let short = LexErrorKind::UnclosedMultilineComment { unclosed_indices: vec![0] };
    let long = LexErrorKind::UnclosedMultilineComment { unclosed_indices: vec![0, 5] };
    let later = LexErrorKind::UnclosedMultilineComment { unclosed_indices: vec![1] };
    assert!(short < long);
    assert!(long < later);
    let xy = LexErrorKind::InvalidIntSuffix { suffix: ident("xy", 2, 4) };
    let xyz = LexErrorKind::InvalidIntSuffix { suffix: ident("xyz", 2, 5) };
    let xyz_later = LexErrorKind::InvalidIntSuffix { suffix: ident("xyz", 3, 6) };
    assert!(xy < xyz);
    assert!(xyz < xyz_later);
    let hash = LexErrorKind::InvalidCharacter { position: 4, character: '#' };
    let dollar = LexErrorKind::InvalidCharacter { position: 4, character: '$' };
    assert!(hash < dollar);
}

#[test]
fn errors_order_by_span_first() {
    let early = LexError::new(span(0, 1), LexErrorKind::InvalidEscapeCode { position: 9 });
    let late = LexError::new(span(1, 2), LexErrorKind::UnclosedStringLiteral { position: 0 });
    assert!(early < late);
    let no_file = LexError::new(
        Span::new(0, 1, None).unwrap(),
        LexErrorKind::InvalidEscapeCode { position: 9 },
    );
    assert!(no_file < early);
}

#[test]
fn delimiters_order_by_declaration() {
    assert!(OpeningDelimiter::Parenthesis < OpeningDelimiter::Brace);
    assert!(OpeningDelimiter::Brace < OpeningDelimiter::SquareBracket);
    assert!(ClosingDelimiter::Parenthesis < ClosingDelimiter::Brace);
    assert!(ClosingDelimiter::Brace < ClosingDelimiter::SquareBracket);
    assert_eq!(OpeningDelimiter::SquareBracket.index(), 2);
    assert_eq!(ClosingDelimiter::Parenthesis.index(), 0);
}

#[test]
fn delimiter_positions_must_be_ordered() {
    let ok = LexErrorKind::MismatchedDelimiters {
        open_position: 0,
        close_position: 1,
        open_delimiter: OpeningDelimiter::Parenthesis,
        close_delimiter: ClosingDelimiter::SquareBracket,
    };
    assert!(ok.is_well_formed(2));
    let same = LexErrorKind::MismatchedDelimiters {
        open_position: 1,
        close_position: 1,
        open_delimiter: OpeningDelimiter::Parenthesis,
        close_delimiter: ClosingDelimiter::SquareBracket,
    };
    assert!(!same.is_well_formed(2));
    let unclosed = LexErrorKind::UnclosedDelimiter {
        open_position: 3,
        open_delimiter: OpeningDelimiter::Brace,
    };
    assert!(unclosed.is_well_formed(4));
    assert!(!unclosed.is_well_formed(3));
}

#[test]
fn unclosed_comment_openings_must_be_present_and_ascending() {
    let wf = |v: Vec<usize>| {
        LexErrorKind::UnclosedMultilineComment { unclosed_indices: v }.is_well_formed(10)
    };
    assert!(wf(vec![0, 5]));
    assert!(wf(vec![3]));
    assert!(!wf(vec![]));
    assert!(!wf(vec![5, 0]));
    assert!(!wf(vec![2, 2]));
    assert!(!wf(vec![0, 5, 4]));
    assert!(!wf(vec![0, 10]));
}

#[test]
fn error_well_formedness_covers_its_span() {
    let k = LexErrorKind::UnclosedStringLiteral { position: 0 };
    assert!(LexError::new(span(0, 4), k.clone()).is_well_formed(4));
    assert!(!LexError::new(span(0, 5), k).is_well_formed(4));
    let bad_suffix = LexErrorKind::InvalidIntSuffix {
        suffix: Ident { name: "xyz".to_string(), span: Span { start: 5, end: 2, source_id: None } },
    };
    assert!(!bad_suffix.is_well_formed(10));
    assert!(LexErrorKind::InvalidHexEscape.is_well_formed(0));
}

#[test]
fn nested_unclosed_comments() {
    let src = "/* a /* b";
    let e = LexError::new(
        span(0, src.len()),
        LexErrorKind::UnclosedMultilineComment { unclosed_indices: vec![0, 5] },
    );
    assert!(e.is_well_formed(src.len()));
    assert_eq!(e.message(), "unclosed multiline comment");
    match &e.kind {
        LexErrorKind::UnclosedMultilineComment { unclosed_indices } => {
            assert_eq!(unclosed_indices, &vec![0, 5]);
        }
        _ => panic!("wrong variant"),
    }
}

#[test]
fn paren_closed_by_bracket() {
    let src = "(]";
    let k = LexErrorKind::MismatchedDelimiters {
        open_position: 0,
        close_position: 1,
        open_delimiter: OpeningDelimiter::Parenthesis,
        close_delimiter: ClosingDelimiter::SquareBracket,
    };
    let e = LexError::new(span(1, 2), k);
    assert!(e.is_well_formed(src.len()));
    assert_eq!(e.message(), "mismatched delimiters");
    assert_eq!(e.kind.tag(), LexErrorTag::MismatchedDelimiters);
}

#[test]
fn unterminated_string() {
    let src = "\"abc";
    let e = LexError::new(span(0, 4), LexErrorKind::UnclosedStringLiteral { position: 0 });
    assert!(e.is_well_formed(src.len()));
    assert_eq!(e.message(), "unclosed string literal");
}

#[test]
fn hex_prefix_without_digits() {
    let src = "0x";
    let e = LexError::new(span(0, 2), LexErrorKind::IncompleteHexIntLiteral { position: 0 });
    assert!(e.is_well_formed(src.len()));
    assert_eq!(e.message(), "incomplete hex int literal");
}

#[test]
fn unknown_int_suffix() {
    let src = "42xyz";
    let k = LexErrorKind::InvalidIntSuffix { suffix: ident("xyz", 2, 5) };
    let e = LexError::new(span(2, 5), k);
    assert!(e.is_well_formed(src.len()));
    assert_eq!(e.message(), "invalid int suffix: xyz");
    match &e.kind {
        LexErrorKind::InvalidIntSuffix { suffix } => {
            assert_eq!(suffix.as_str(), "xyz");
            assert_eq!((suffix.span.start, suffix.span.end), (2, 5));
        }
        _ => panic!("wrong variant"),
    }
}

#[test]
fn messages_of_every_kind() {
    let expected = [
        "unclosed multiline comment",
        "unexpected close delimiter",
        "mismatched delimiters",
        "unclosed delimiter",
        "unclosed string literal",
        "unclosed char literal",
        "expected close quote",
        "incomplete hex int literal",
        "incomplete binary int literal",
        "incomplete octal int literal",
        "invalid int suffix: xyz",
        "invalid character",
        "invalid hex escape",
        "unicode escape missing brace",
        "invalid unicode escape digit",
        "unicode escape out of range",
        "unicode escape represents an invalid char value",
        "invalid escape code",
    ];
    let each = one_of_each();
    assert_eq!(each.len(), expected.len());
    for (k, m) in each.iter().zip(expected.iter()) {
        assert_eq!(k.message(), *m);
    }
    assert_eq!(each[10].description(), "invalid int suffix");
}

#[test]
fn description_reads_back_to_the_same_tag() {
    for k in all_kinds() {
        assert_eq!(LexErrorTag::from_description(k.description()), Some(k.tag()));
    }
    let each = one_of_each();
    for (i, k) in each.iter().enumerate() {
        assert_eq!(k.tag().index(), i);
    }
    assert_eq!(LexErrorTag::from_description("syntax error"), None);
    assert_eq!(LexErrorTag::from_description(""), None);
    assert_eq!(LexErrorTag::from_description("invalid int suffix: xyz"), None);
    assert_eq!(
        LexErrorTag::from_description("invalid hex escape"),
        Some(LexErrorTag::InvalidHexEscape)
    );
}
