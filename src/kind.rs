//! What went wrong while turning source text into tokens: one variant per
//! kind of failure, with the positions a diagnostic needs, and a short fixed
//! description of each kind.
use core::cmp::Ordering;
use vstd::prelude::*;
use vstd::string::*;

use crate::delimiter::{ClosingDelimiter, OpeningDelimiter};
use crate::order::{
    compare_char, compare_indices, compare_usize, indices_equal, lemma_seq_cmp_equal,
    lemma_seq_cmp_flip, lemma_seq_cmp_less_trans, lemma_usize_ints_injective, ord_of, seq_cmp,
    text_equal, then_cmp, usize_ints,
};
use crate::span::{Ident, Span};

verus! {

/// The number of kinds of lexical failure.
pub const KIND_COUNT: usize = 18;

/// A lexical failure. Every position is a byte offset into the source text
/// being lexed.
#[derive(Debug, Clone, Hash)]
pub enum LexErrorKind {
    /// Multiline comments still open at the end of input: where each was opened, outermost first.
    UnclosedMultilineComment { unclosed_indices: Vec<usize> },
    /// A closing delimiter with no open delimiter to match.
    UnexpectedCloseDelimiter { position: usize, close_delimiter: ClosingDelimiter },
    /// A closing delimiter of another kind than the innermost open one.
    MismatchedDelimiters { open_position: usize, close_position: usize, open_delimiter: OpeningDelimiter, close_delimiter: ClosingDelimiter },
    /// A delimiter still open at the end of input.
    UnclosedDelimiter { open_position: usize, open_delimiter: OpeningDelimiter },
    /// A string literal never terminated.
    UnclosedStringLiteral { position: usize },
    /// A char literal never terminated.
    UnclosedCharLiteral { position: usize },
    /// A closing quote was required here and is absent.
    ExpectedCloseQuote { position: usize },
    /// A `0x` prefix with no hexadecimal digit after it.
    IncompleteHexIntLiteral { position: usize },
    /// A `0b` prefix with no binary digit after it.
    IncompleteBinaryIntLiteral { position: usize },
    /// A `0o` prefix with no octal digit after it.
    IncompleteOctalIntLiteral { position: usize },
    /// An identifier after a number that names no integer type.
    InvalidIntSuffix { suffix: Ident },
    /// A character that starts no token.
    InvalidCharacter { position: usize, character: char },
    /// A malformed `\x` escape.
    InvalidHexEscape,
    /// A unicode escape without its brace.
    UnicodeEscapeMissingBrace { position: usize },
    /// A character in a unicode escape that is no hexadecimal digit.
    InvalidUnicodeEscapeDigit { position: usize },
    /// A unicode escape whose value is past the last code point.
    UnicodeEscapeOutOfRange { position: usize },
    /// A unicode escape whose value is in range but is no char (a surrogate).
    UnicodeEscapeInvalidCharValue { span: Span },
    /// An escape introducer followed by a character that starts no escape.
    InvalidEscapeCode { position: usize },
}

/// Which kind of lexical failure a value is, without its payload.
#[derive(Debug, Clone, Copy, PartialEq, Eq, Structural, Hash)]
pub enum LexErrorTag {
    UnclosedMultilineComment,
    UnexpectedCloseDelimiter,
    MismatchedDelimiters,
    UnclosedDelimiter,
    UnclosedStringLiteral,
    UnclosedCharLiteral,
    ExpectedCloseQuote,
    IncompleteHexIntLiteral,
    IncompleteBinaryIntLiteral,
    IncompleteOctalIntLiteral,
    InvalidIntSuffix,
    InvalidCharacter,
    InvalidHexEscape,
    UnicodeEscapeMissingBrace,
    InvalidUnicodeEscapeDigit,
    UnicodeEscapeOutOfRange,
    UnicodeEscapeInvalidCharValue,
    InvalidEscapeCode,
}

/// The tag whose description is `s`, if any.
pub open spec fn tag_of_description(s: Seq<char>) -> Option<LexErrorTag> {
    if exists|t: LexErrorTag| t.description_text() == s {
        Some(choose|t: LexErrorTag| t.description_text() == s)
    } else {
        None
    }
}

impl LexErrorTag {
    /// Position of the kind in declaration order.
    pub open spec fn rank(self) -> int {
        match self {
            LexErrorTag::UnclosedMultilineComment => 0,
            LexErrorTag::UnexpectedCloseDelimiter => 1,
            LexErrorTag::MismatchedDelimiters => 2,
            LexErrorTag::UnclosedDelimiter => 3,
            LexErrorTag::UnclosedStringLiteral => 4,
            LexErrorTag::UnclosedCharLiteral => 5,
            LexErrorTag::ExpectedCloseQuote => 6,
            LexErrorTag::IncompleteHexIntLiteral => 7,
            LexErrorTag::IncompleteBinaryIntLiteral => 8,
            LexErrorTag::IncompleteOctalIntLiteral => 9,
            LexErrorTag::InvalidIntSuffix => 10,
            LexErrorTag::InvalidCharacter => 11,
            LexErrorTag::InvalidHexEscape => 12,
            LexErrorTag::UnicodeEscapeMissingBrace => 13,
            LexErrorTag::InvalidUnicodeEscapeDigit => 14,
            LexErrorTag::UnicodeEscapeOutOfRange => 15,
            LexErrorTag::UnicodeEscapeInvalidCharValue => 16,
            LexErrorTag::InvalidEscapeCode => 17,
        }
    }

    /// The fixed text that describes the kind.
    pub open spec fn description_text(self) -> Seq<char> {
        match self {
            LexErrorTag::UnclosedMultilineComment => "unclosed multiline comment"@,
            LexErrorTag::UnexpectedCloseDelimiter => "unexpected close delimiter"@,
            LexErrorTag::MismatchedDelimiters => "mismatched delimiters"@,
            LexErrorTag::UnclosedDelimiter => "unclosed delimiter"@,
            LexErrorTag::UnclosedStringLiteral => "unclosed string literal"@,
            LexErrorTag::UnclosedCharLiteral => "unclosed char literal"@,
            LexErrorTag::ExpectedCloseQuote => "expected close quote"@,
            LexErrorTag::IncompleteHexIntLiteral => "incomplete hex int literal"@,
            LexErrorTag::IncompleteBinaryIntLiteral => "incomplete binary int literal"@,
            LexErrorTag::IncompleteOctalIntLiteral => "incomplete octal int literal"@,
            LexErrorTag::InvalidIntSuffix => "invalid int suffix"@,
            LexErrorTag::InvalidCharacter => "invalid character"@,
            LexErrorTag::InvalidHexEscape => "invalid hex escape"@,
            LexErrorTag::UnicodeEscapeMissingBrace => "unicode escape missing brace"@,
            LexErrorTag::InvalidUnicodeEscapeDigit => "invalid unicode escape digit"@,
            LexErrorTag::UnicodeEscapeOutOfRange => "unicode escape out of range"@,
            LexErrorTag::UnicodeEscapeInvalidCharValue => "unicode escape represents an invalid char value"@,
            LexErrorTag::InvalidEscapeCode => "invalid escape code"@,
        }
    }

    /// Position of the kind in declaration order.
    pub fn index(self) -> (r: usize)
        ensures
            r as int == self.rank(),
            r < KIND_COUNT,
    {
        match self {
            LexErrorTag::UnclosedMultilineComment => 0,
            LexErrorTag::UnexpectedCloseDelimiter => 1,
            LexErrorTag::MismatchedDelimiters => 2,
            LexErrorTag::UnclosedDelimiter => 3,
            LexErrorTag::UnclosedStringLiteral => 4,
            LexErrorTag::UnclosedCharLiteral => 5,
            LexErrorTag::ExpectedCloseQuote => 6,
            LexErrorTag::IncompleteHexIntLiteral => 7,
            LexErrorTag::IncompleteBinaryIntLiteral => 8,
            LexErrorTag::IncompleteOctalIntLiteral => 9,
            LexErrorTag::InvalidIntSuffix => 10,
            LexErrorTag::InvalidCharacter => 11,
            LexErrorTag::InvalidHexEscape => 12,
            LexErrorTag::UnicodeEscapeMissingBrace => 13,
            LexErrorTag::InvalidUnicodeEscapeDigit => 14,
            LexErrorTag::UnicodeEscapeOutOfRange => 15,
            LexErrorTag::UnicodeEscapeInvalidCharValue => 16,
            LexErrorTag::InvalidEscapeCode => 17,
        }
    }

    fn from_index(i: usize) -> (r: LexErrorTag)
        requires
            i < KIND_COUNT,
        ensures
            r.rank() == i as int,
    {
        match i {
            0 => LexErrorTag::UnclosedMultilineComment,
            1 => LexErrorTag::UnexpectedCloseDelimiter,
            2 => LexErrorTag::MismatchedDelimiters,
            3 => LexErrorTag::UnclosedDelimiter,
            4 => LexErrorTag::UnclosedStringLiteral,
            5 => LexErrorTag::UnclosedCharLiteral,
            6 => LexErrorTag::ExpectedCloseQuote,
            7 => LexErrorTag::IncompleteHexIntLiteral,
            8 => LexErrorTag::IncompleteBinaryIntLiteral,
            9 => LexErrorTag::IncompleteOctalIntLiteral,
            10 => LexErrorTag::InvalidIntSuffix,
            11 => LexErrorTag::InvalidCharacter,
            12 => LexErrorTag::InvalidHexEscape,
            13 => LexErrorTag::UnicodeEscapeMissingBrace,
            14 => LexErrorTag::InvalidUnicodeEscapeDigit,
            15 => LexErrorTag::UnicodeEscapeOutOfRange,
            16 => LexErrorTag::UnicodeEscapeInvalidCharValue,
            _ => LexErrorTag::InvalidEscapeCode,
        }
    }

    /// The fixed text that describes the kind.
    pub fn description(self) -> (r: &'static str)
        ensures
            r@ == self.description_text(),
    {
        match self {
            LexErrorTag::UnclosedMultilineComment => "unclosed multiline comment",
            LexErrorTag::UnexpectedCloseDelimiter => "unexpected close delimiter",
            LexErrorTag::MismatchedDelimiters => "mismatched delimiters",
            LexErrorTag::UnclosedDelimiter => "unclosed delimiter",
            LexErrorTag::UnclosedStringLiteral => "unclosed string literal",
            LexErrorTag::UnclosedCharLiteral => "unclosed char literal",
            LexErrorTag::ExpectedCloseQuote => "expected close quote",
            LexErrorTag::IncompleteHexIntLiteral => "incomplete hex int literal",
            LexErrorTag::IncompleteBinaryIntLiteral => "incomplete binary int literal",
            LexErrorTag::IncompleteOctalIntLiteral => "incomplete octal int literal",
            LexErrorTag::InvalidIntSuffix => "invalid int suffix",
            LexErrorTag::InvalidCharacter => "invalid character",
            LexErrorTag::InvalidHexEscape => "invalid hex escape",
            LexErrorTag::UnicodeEscapeMissingBrace => "unicode escape missing brace",
            LexErrorTag::InvalidUnicodeEscapeDigit => "invalid unicode escape digit",
            LexErrorTag::UnicodeEscapeOutOfRange => "unicode escape out of range",
            LexErrorTag::UnicodeEscapeInvalidCharValue => "unicode escape represents an invalid char value",
            LexErrorTag::InvalidEscapeCode => "invalid escape code",
        }
    }

    /// The kind that `s` describes: the inverse of `description`.
    pub fn from_description(s: &str) -> (r: Option<LexErrorTag>)
        ensures
            r == tag_of_description(s@),
    {
        let mut i: usize = 0;
        while i < KIND_COUNT
            invariant
                i <= KIND_COUNT,
                forall|t: LexErrorTag| #[trigger] t.rank() < i ==> t.description_text() != s@,
            decreases KIND_COUNT - i,
        {
            let t = LexErrorTag::from_index(i);
            if text_equal(t.description(), s) {
                proof {
                    let c = choose|u: LexErrorTag| u.description_text() == s@;
                    lemma_descriptions_distinct(t, c);
                }
                return Some(t);
            }
            i = i + 1;
        }
        proof {
            assert forall|t: LexErrorTag| t.description_text() != s@ by {
                assert(t.rank() < KIND_COUNT);
            }
        }
        None
    }
}

/// No two kinds share a description.
pub proof fn lemma_descriptions_distinct(t: LexErrorTag, u: LexErrorTag)
    ensures
        t.description_text() == u.description_text() ==> t == u,
{
    reveal_strlit("unclosed multiline comment");
    reveal_strlit("unexpected close delimiter");
    reveal_strlit("mismatched delimiters");
    reveal_strlit("unclosed delimiter");
    reveal_strlit("unclosed string literal");
    reveal_strlit("unclosed char literal");
    reveal_strlit("expected close quote");
    reveal_strlit("incomplete hex int literal");
    reveal_strlit("incomplete binary int literal");
    reveal_strlit("incomplete octal int literal");
    reveal_strlit("invalid int suffix");
    reveal_strlit("invalid character");
    reveal_strlit("invalid hex escape");
    reveal_strlit("unicode escape missing brace");
    reveal_strlit("invalid unicode escape digit");
    reveal_strlit("unicode escape out of range");
    reveal_strlit("unicode escape represents an invalid char value");
    reveal_strlit("invalid escape code");
    // The length and the ninth character tell every description apart.
    let (a, b) = (t.description_text(), u.description_text());
    if a == b {
        assert(a.len() == b.len() && a[8] == b[8]);
    }
}

/// Reading a tag's description back gives the tag again.
pub proof fn lemma_tag_round_trip(t: LexErrorTag)
    ensures
        tag_of_description(t.description_text()) == Some(t),
{
    let c = choose|u: LexErrorTag| u.description_text() == t.description_text();
    lemma_descriptions_distinct(t, c);
}

/// Reading a kind's description back gives the kind's tag again.
pub proof fn lemma_description_round_trip(k: LexErrorKind)
    ensures
        tag_of_description(k.spec_tag().description_text()) == Some(k.spec_tag()),
{
    lemma_tag_round_trip(k.spec_tag());
}

impl LexErrorKind {
    /// The tag of the variant.
    pub open spec fn spec_tag(&self) -> LexErrorTag {
        match self {
            LexErrorKind::UnclosedMultilineComment { .. } => LexErrorTag::UnclosedMultilineComment,
            LexErrorKind::UnexpectedCloseDelimiter { .. } => LexErrorTag::UnexpectedCloseDelimiter,
            LexErrorKind::MismatchedDelimiters { .. } => LexErrorTag::MismatchedDelimiters,
            LexErrorKind::UnclosedDelimiter { .. } => LexErrorTag::UnclosedDelimiter,
            LexErrorKind::UnclosedStringLiteral { .. } => LexErrorTag::UnclosedStringLiteral,
            LexErrorKind::UnclosedCharLiteral { .. } => LexErrorTag::UnclosedCharLiteral,
            LexErrorKind::ExpectedCloseQuote { .. } => LexErrorTag::ExpectedCloseQuote,
            LexErrorKind::IncompleteHexIntLiteral { .. } => LexErrorTag::IncompleteHexIntLiteral,
            LexErrorKind::IncompleteBinaryIntLiteral { .. } => LexErrorTag::IncompleteBinaryIntLiteral,
            LexErrorKind::IncompleteOctalIntLiteral { .. } => LexErrorTag::IncompleteOctalIntLiteral,
            LexErrorKind::InvalidIntSuffix { .. } => LexErrorTag::InvalidIntSuffix,
            LexErrorKind::InvalidCharacter { .. } => LexErrorTag::InvalidCharacter,
            LexErrorKind::InvalidHexEscape => LexErrorTag::InvalidHexEscape,
            LexErrorKind::UnicodeEscapeMissingBrace { .. } => LexErrorTag::UnicodeEscapeMissingBrace,
            LexErrorKind::InvalidUnicodeEscapeDigit { .. } => LexErrorTag::InvalidUnicodeEscapeDigit,
            LexErrorKind::UnicodeEscapeOutOfRange { .. } => LexErrorTag::UnicodeEscapeOutOfRange,
            LexErrorKind::UnicodeEscapeInvalidCharValue { .. } => LexErrorTag::UnicodeEscapeInvalidCharValue,
            LexErrorKind::InvalidEscapeCode { .. } => LexErrorTag::InvalidEscapeCode,
        }
    }

    /// The tag of the variant.
    pub fn tag(&self) -> (r: LexErrorTag)
        ensures
            r == self.spec_tag(),
    {
        match self {
            LexErrorKind::UnclosedMultilineComment { .. } => LexErrorTag::UnclosedMultilineComment,
            LexErrorKind::UnexpectedCloseDelimiter { .. } => LexErrorTag::UnexpectedCloseDelimiter,
            LexErrorKind::MismatchedDelimiters { .. } => LexErrorTag::MismatchedDelimiters,
            LexErrorKind::UnclosedDelimiter { .. } => LexErrorTag::UnclosedDelimiter,
            LexErrorKind::UnclosedStringLiteral { .. } => LexErrorTag::UnclosedStringLiteral,
            LexErrorKind::UnclosedCharLiteral { .. } => LexErrorTag::UnclosedCharLiteral,
            LexErrorKind::ExpectedCloseQuote { .. } => LexErrorTag::ExpectedCloseQuote,
            LexErrorKind::IncompleteHexIntLiteral { .. } => LexErrorTag::IncompleteHexIntLiteral,
            LexErrorKind::IncompleteBinaryIntLiteral { .. } => LexErrorTag::IncompleteBinaryIntLiteral,
            LexErrorKind::IncompleteOctalIntLiteral { .. } => LexErrorTag::IncompleteOctalIntLiteral,
            LexErrorKind::InvalidIntSuffix { .. } => LexErrorTag::InvalidIntSuffix,
            LexErrorKind::InvalidCharacter { .. } => LexErrorTag::InvalidCharacter,
            LexErrorKind::InvalidHexEscape => LexErrorTag::InvalidHexEscape,
            LexErrorKind::UnicodeEscapeMissingBrace { .. } => LexErrorTag::UnicodeEscapeMissingBrace,
            LexErrorKind::InvalidUnicodeEscapeDigit { .. } => LexErrorTag::InvalidUnicodeEscapeDigit,
            LexErrorKind::UnicodeEscapeOutOfRange { .. } => LexErrorTag::UnicodeEscapeOutOfRange,
            LexErrorKind::UnicodeEscapeInvalidCharValue { .. } => LexErrorTag::UnicodeEscapeInvalidCharValue,
            LexErrorKind::InvalidEscapeCode { .. } => LexErrorTag::InvalidEscapeCode,
        }
    }

    /// The fixed text that describes the kind, without its payload.
    pub fn description(&self) -> (r: &'static str)
        ensures
            r@ == self.spec_tag().description_text(),
    {
        self.tag().description()
    }

    /// The description, followed for an invalid suffix by the suffix itself.
    pub open spec fn message_text(&self) -> Seq<char> {
        match self {
            LexErrorKind::InvalidIntSuffix { suffix } => self.spec_tag().description_text() + ": "@
                + suffix.name@,
            _ => self.spec_tag().description_text(),
        }
    }

    /// The message that reports the failure.
    pub fn message(&self) -> (r: String)
        ensures
            r@ == self.message_text(),
    {
        let mut m = self.description().to_owned();
        match self {
            LexErrorKind::InvalidIntSuffix { suffix } => {
                m.append(": ");
                m.append(suffix.as_str());
            },
            _ => {},
        }
        m
    }

    /// Same variant, and the same payload field by field.
    pub open spec fn same(&self, other: &LexErrorKind) -> bool {
        match (self, other) {
            (
                LexErrorKind::UnclosedMultilineComment { unclosed_indices: a },
                LexErrorKind::UnclosedMultilineComment { unclosed_indices: b },
            ) => a@ == b@,
            (LexErrorKind::InvalidIntSuffix { suffix: a }, LexErrorKind::InvalidIntSuffix { suffix: b }) => a.same(b),
            _ => self == other,
        }
    }

    /// Variants in declaration order; within one variant, the payload field by
    /// field in declaration order.
    pub open spec fn cmp_spec(&self, other: &LexErrorKind) -> Ordering {
        match (self, other) {
            (LexErrorKind::UnclosedMultilineComment { unclosed_indices: unclosed_indices_a }, LexErrorKind::UnclosedMultilineComment { unclosed_indices: unclosed_indices_b }) => seq_cmp(usize_ints(unclosed_indices_a@), usize_ints(unclosed_indices_b@)),
            (LexErrorKind::UnexpectedCloseDelimiter { position: position_a, close_delimiter: close_delimiter_a }, LexErrorKind::UnexpectedCloseDelimiter { position: position_b, close_delimiter: close_delimiter_b }) => then_cmp(ord_of(position_a as int, position_b as int), ord_of(close_delimiter_a.rank(), close_delimiter_b.rank())),
            (LexErrorKind::MismatchedDelimiters { open_position: open_position_a, close_position: close_position_a, open_delimiter: open_delimiter_a, close_delimiter: close_delimiter_a }, LexErrorKind::MismatchedDelimiters { open_position: open_position_b, close_position: close_position_b, open_delimiter: open_delimiter_b, close_delimiter: close_delimiter_b }) => then_cmp(ord_of(open_position_a as int, open_position_b as int), then_cmp(ord_of(close_position_a as int, close_position_b as int), then_cmp(ord_of(open_delimiter_a.rank(), open_delimiter_b.rank()), ord_of(close_delimiter_a.rank(), close_delimiter_b.rank())))),
            (LexErrorKind::UnclosedDelimiter { open_position: open_position_a, open_delimiter: open_delimiter_a }, LexErrorKind::UnclosedDelimiter { open_position: open_position_b, open_delimiter: open_delimiter_b }) => then_cmp(ord_of(open_position_a as int, open_position_b as int), ord_of(open_delimiter_a.rank(), open_delimiter_b.rank())),
            (LexErrorKind::UnclosedStringLiteral { position: position_a }, LexErrorKind::UnclosedStringLiteral { position: position_b }) => ord_of(position_a as int, position_b as int),
            (LexErrorKind::UnclosedCharLiteral { position: position_a }, LexErrorKind::UnclosedCharLiteral { position: position_b }) => ord_of(position_a as int, position_b as int),
            (LexErrorKind::ExpectedCloseQuote { position: position_a }, LexErrorKind::ExpectedCloseQuote { position: position_b }) => ord_of(position_a as int, position_b as int),
            (LexErrorKind::IncompleteHexIntLiteral { position: position_a }, LexErrorKind::IncompleteHexIntLiteral { position: position_b }) => ord_of(position_a as int, position_b as int),
            (LexErrorKind::IncompleteBinaryIntLiteral { position: position_a }, LexErrorKind::IncompleteBinaryIntLiteral { position: position_b }) => ord_of(position_a as int, position_b as int),
            (LexErrorKind::IncompleteOctalIntLiteral { position: position_a }, LexErrorKind::IncompleteOctalIntLiteral { position: position_b }) => ord_of(position_a as int, position_b as int),
            (LexErrorKind::InvalidIntSuffix { suffix: suffix_a }, LexErrorKind::InvalidIntSuffix { suffix: suffix_b }) => suffix_a.cmp_spec(suffix_b),
            (LexErrorKind::InvalidCharacter { position: position_a, character: character_a }, LexErrorKind::InvalidCharacter { position: position_b, character: character_b }) => then_cmp(ord_of(position_a as int, position_b as int), ord_of(character_a as int, character_b as int)),
            (LexErrorKind::UnicodeEscapeMissingBrace { position: position_a }, LexErrorKind::UnicodeEscapeMissingBrace { position: position_b }) => ord_of(position_a as int, position_b as int),
            (LexErrorKind::InvalidUnicodeEscapeDigit { position: position_a }, LexErrorKind::InvalidUnicodeEscapeDigit { position: position_b }) => ord_of(position_a as int, position_b as int),
            (LexErrorKind::UnicodeEscapeOutOfRange { position: position_a }, LexErrorKind::UnicodeEscapeOutOfRange { position: position_b }) => ord_of(position_a as int, position_b as int),
            (LexErrorKind::UnicodeEscapeInvalidCharValue { span: span_a }, LexErrorKind::UnicodeEscapeInvalidCharValue { span: span_b }) => span_a.cmp_spec(span_b),
            (LexErrorKind::InvalidEscapeCode { position: position_a }, LexErrorKind::InvalidEscapeCode { position: position_b }) => ord_of(position_a as int, position_b as int),
            _ => ord_of(self.spec_tag().rank(), other.spec_tag().rank()),
        }
    }

    /// Every position lies in a source text of `source_len` bytes, and the
    /// positions of one failure come in the order the scan met them.
    pub open spec fn wf(&self, source_len: nat) -> bool {
        match self {
            LexErrorKind::UnclosedMultilineComment { unclosed_indices } => {
                &&& unclosed_indices@.len() > 0
                &&& forall|i: int, j: int|
                    0 <= i < j < unclosed_indices@.len() ==> unclosed_indices@[i]
                        < unclosed_indices@[j]
                &&& forall|i: int|
                    0 <= i < unclosed_indices@.len() ==> unclosed_indices@[i] < source_len
            },
            LexErrorKind::MismatchedDelimiters { open_position, close_position, .. } => {
                *open_position < *close_position && *close_position < source_len
            },
            LexErrorKind::UnclosedDelimiter { open_position, .. } => *open_position < source_len,
            LexErrorKind::InvalidIntSuffix { suffix } => suffix.span.wf() && suffix.span.end
                <= source_len,
            LexErrorKind::InvalidHexEscape => true,
            LexErrorKind::UnicodeEscapeInvalidCharValue { span } => span.wf() && span.end
                <= source_len,
            LexErrorKind::UnexpectedCloseDelimiter { position, .. } => *position < source_len,
            LexErrorKind::UnclosedStringLiteral { position, .. } => *position < source_len,
            LexErrorKind::UnclosedCharLiteral { position, .. } => *position < source_len,
            LexErrorKind::ExpectedCloseQuote { position, .. } => *position < source_len,
            LexErrorKind::IncompleteHexIntLiteral { position, .. } => *position < source_len,
            LexErrorKind::IncompleteBinaryIntLiteral { position, .. } => *position < source_len,
            LexErrorKind::IncompleteOctalIntLiteral { position, .. } => *position < source_len,
            LexErrorKind::InvalidCharacter { position, .. } => *position < source_len,
            LexErrorKind::UnicodeEscapeMissingBrace { position, .. } => *position < source_len,
            LexErrorKind::InvalidUnicodeEscapeDigit { position, .. } => *position < source_len,
            LexErrorKind::UnicodeEscapeOutOfRange { position, .. } => *position < source_len,
            LexErrorKind::InvalidEscapeCode { position, .. } => *position < source_len,
        }
    }

    /// Whether `wf(source_len)` holds.
    pub fn is_well_formed(&self, source_len: usize) -> (r: bool)
        ensures
            r == self.wf(source_len as nat),
    {
        match self {
            LexErrorKind::UnclosedMultilineComment { unclosed_indices: v } => {
                if v.len() == 0 {
                    return false;
                }
                let mut i: usize = 0;
                while i < v.len()
                    invariant
                        *self == (LexErrorKind::UnclosedMultilineComment { unclosed_indices: *v }),
                        0 < v@.len(),
                        i <= v@.len(),
                        forall|j: int, k: int| 0 <= j < k < i ==> v@[j] < v@[k],
                        forall|j: int| 0 <= j < i ==> v@[j] < source_len,
                    decreases v.len() - i,
                {
                    if v[i] >= source_len {
                        proof {
                            let j = i as int;
                            assert(!(v@[j] < source_len));
                        }
                        return false;
                    }
                    if i > 0 && v[i - 1] >= v[i] {
                        proof {
                            let (j, k) = (i - 1, i as int);
                            assert(0 <= j < k < v@.len() && !(v@[j] < v@[k]));
                        }
                        return false;
                    }
                    i = i + 1;
                }
                true
            },
            LexErrorKind::MismatchedDelimiters { open_position, close_position, .. } => {
                *open_position < *close_position && *close_position < source_len
            },
            LexErrorKind::UnclosedDelimiter { open_position, .. } => *open_position < source_len,
            LexErrorKind::InvalidIntSuffix { suffix } => {
                suffix.span.start <= suffix.span.end && suffix.span.end <= source_len
            },
            LexErrorKind::InvalidHexEscape => true,
            LexErrorKind::UnicodeEscapeInvalidCharValue { span } => {
                span.start <= span.end && span.end <= source_len
            },
            LexErrorKind::UnexpectedCloseDelimiter { position, .. } => *position < source_len,
            LexErrorKind::UnclosedStringLiteral { position, .. } => *position < source_len,
            LexErrorKind::UnclosedCharLiteral { position, .. } => *position < source_len,
            LexErrorKind::ExpectedCloseQuote { position, .. } => *position < source_len,
            LexErrorKind::IncompleteHexIntLiteral { position, .. } => *position < source_len,
            LexErrorKind::IncompleteBinaryIntLiteral { position, .. } => *position < source_len,
            LexErrorKind::IncompleteOctalIntLiteral { position, .. } => *position < source_len,
            LexErrorKind::InvalidCharacter { position, .. } => *position < source_len,
            LexErrorKind::UnicodeEscapeMissingBrace { position, .. } => *position < source_len,
            LexErrorKind::InvalidUnicodeEscapeDigit { position, .. } => *position < source_len,
            LexErrorKind::UnicodeEscapeOutOfRange { position, .. } => *position < source_len,
            LexErrorKind::InvalidEscapeCode { position, .. } => *position < source_len,
        }
    }

    /// The three-way comparison agrees with `same`, is antisymmetric, and
    /// `Less` is transitive.
    pub proof fn lemma_cmp(a: &LexErrorKind, b: &LexErrorKind, c: &LexErrorKind)
        ensures
            a.cmp_spec(b) == Ordering::Equal <==> a.same(b),
            b.cmp_spec(a) == crate::order::flip(a.cmp_spec(b)),
            a.cmp_spec(b) == Ordering::Less && b.cmp_spec(c) == Ordering::Less ==> a.cmp_spec(c)
                == Ordering::Less,
    {
        match (a, b) {
            (
                LexErrorKind::UnclosedMultilineComment { unclosed_indices: x },
                LexErrorKind::UnclosedMultilineComment { unclosed_indices: y },
            ) => {
                lemma_seq_cmp_equal(usize_ints(x@), usize_ints(y@));
                lemma_seq_cmp_flip(usize_ints(x@), usize_ints(y@));
                if usize_ints(x@) == usize_ints(y@) {
                    lemma_usize_ints_injective(x@, y@);
                }
            },
            (LexErrorKind::InvalidIntSuffix { suffix: x }, LexErrorKind::InvalidIntSuffix { suffix: y }) => {
                Ident::lemma_cmp(x, y, x);
            },
            (
                LexErrorKind::UnicodeEscapeInvalidCharValue { span: x },
                LexErrorKind::UnicodeEscapeInvalidCharValue { span: y },
            ) => {
                Span::lemma_cmp(*x, *y, *x);
            },
            _ => {},
        }
        match (a, b, c) {
            (
                LexErrorKind::UnclosedMultilineComment { unclosed_indices: x },
                LexErrorKind::UnclosedMultilineComment { unclosed_indices: y },
                LexErrorKind::UnclosedMultilineComment { unclosed_indices: z },
            ) => {
                if a.cmp_spec(b) == Ordering::Less && b.cmp_spec(c) == Ordering::Less {
                    lemma_seq_cmp_less_trans(usize_ints(x@), usize_ints(y@), usize_ints(z@));
                }
            },
            (
                LexErrorKind::InvalidIntSuffix { suffix: x },
                LexErrorKind::InvalidIntSuffix { suffix: y },
                LexErrorKind::InvalidIntSuffix { suffix: z },
            ) => {
                Ident::lemma_cmp(x, y, z);
            },
            (
                LexErrorKind::UnicodeEscapeInvalidCharValue { span: x },
                LexErrorKind::UnicodeEscapeInvalidCharValue { span: y },
                LexErrorKind::UnicodeEscapeInvalidCharValue { span: z },
            ) => {
                Span::lemma_cmp(*x, *y, *z);
            },
            _ => {},
        }
    }
}

/// In a well-formed failure a mismatched or unclosed delimiter was opened
/// before the event that reports it, and the openings of unclosed comments
/// are present and strictly ascending.
pub proof fn lemma_well_formed_positions(k: &LexErrorKind, source_len: nat)
    requires
        k.wf(source_len),
    ensures
        *k matches LexErrorKind::MismatchedDelimiters { open_position, close_position, .. }
            ==> open_position < close_position,
        *k matches LexErrorKind::UnclosedDelimiter { open_position, .. } ==> open_position
            < source_len,
        *k matches LexErrorKind::UnclosedMultilineComment { unclosed_indices } ==> {
            &&& unclosed_indices@.len() > 0
            &&& forall|i: int, j: int|
                0 <= i < j < unclosed_indices@.len() ==> unclosed_indices@[i]
                    < unclosed_indices@[j]
        },
{
}

/// The outcome a comparison that always decides gives.
fn ordering_of(o: Option<Ordering>) -> (r: Ordering)
    requires
        o is Some,
    ensures
        Some(r) == o,
{
    match o {
        Some(r) => r,
        None => Ordering::Equal,
    }
}

/// Executable `then_cmp`.
fn then_ordering(first: Ordering, second: Ordering) -> (r: Ordering)
    ensures
        r == then_cmp(first, second),
{
    match first {
        Ordering::Equal => second,
        _ => first,
    }
}

impl PartialEq for LexErrorKind {
    fn eq(&self, other: &LexErrorKind) -> (r: bool)
        ensures
            r == self.same(other),
    {
        match (self, other) {
            (LexErrorKind::UnclosedMultilineComment { unclosed_indices: unclosed_indices_a }, LexErrorKind::UnclosedMultilineComment { unclosed_indices: unclosed_indices_b }) => indices_equal(unclosed_indices_a, unclosed_indices_b),
            (LexErrorKind::UnexpectedCloseDelimiter { position: position_a, close_delimiter: close_delimiter_a }, LexErrorKind::UnexpectedCloseDelimiter { position: position_b, close_delimiter: close_delimiter_b }) => *position_a == *position_b && *close_delimiter_a == *close_delimiter_b,
            (LexErrorKind::MismatchedDelimiters { open_position: open_position_a, close_position: close_position_a, open_delimiter: open_delimiter_a, close_delimiter: close_delimiter_a }, LexErrorKind::MismatchedDelimiters { open_position: open_position_b, close_position: close_position_b, open_delimiter: open_delimiter_b, close_delimiter: close_delimiter_b }) => *open_position_a == *open_position_b && *close_position_a == *close_position_b && *open_delimiter_a == *open_delimiter_b && *close_delimiter_a == *close_delimiter_b,
            (LexErrorKind::UnclosedDelimiter { open_position: open_position_a, open_delimiter: open_delimiter_a }, LexErrorKind::UnclosedDelimiter { open_position: open_position_b, open_delimiter: open_delimiter_b }) => *open_position_a == *open_position_b && *open_delimiter_a == *open_delimiter_b,
            (LexErrorKind::UnclosedStringLiteral { position: position_a }, LexErrorKind::UnclosedStringLiteral { position: position_b }) => *position_a == *position_b,
            (LexErrorKind::UnclosedCharLiteral { position: position_a }, LexErrorKind::UnclosedCharLiteral { position: position_b }) => *position_a == *position_b,
            (LexErrorKind::ExpectedCloseQuote { position: position_a }, LexErrorKind::ExpectedCloseQuote { position: position_b }) => *position_a == *position_b,
            (LexErrorKind::IncompleteHexIntLiteral { position: position_a }, LexErrorKind::IncompleteHexIntLiteral { position: position_b }) => *position_a == *position_b,
            (LexErrorKind::IncompleteBinaryIntLiteral { position: position_a }, LexErrorKind::IncompleteBinaryIntLiteral { position: position_b }) => *position_a == *position_b,
            (LexErrorKind::IncompleteOctalIntLiteral { position: position_a }, LexErrorKind::IncompleteOctalIntLiteral { position: position_b }) => *position_a == *position_b,
            (LexErrorKind::InvalidIntSuffix { suffix: suffix_a }, LexErrorKind::InvalidIntSuffix { suffix: suffix_b }) => suffix_a == suffix_b,
            (LexErrorKind::InvalidCharacter { position: position_a, character: character_a }, LexErrorKind::InvalidCharacter { position: position_b, character: character_b }) => *position_a == *position_b && *character_a == *character_b,
            (LexErrorKind::InvalidHexEscape, LexErrorKind::InvalidHexEscape) => true,
            (LexErrorKind::UnicodeEscapeMissingBrace { position: position_a }, LexErrorKind::UnicodeEscapeMissingBrace { position: position_b }) => *position_a == *position_b,
            (LexErrorKind::InvalidUnicodeEscapeDigit { position: position_a }, LexErrorKind::InvalidUnicodeEscapeDigit { position: position_b }) => *position_a == *position_b,
            (LexErrorKind::UnicodeEscapeOutOfRange { position: position_a }, LexErrorKind::UnicodeEscapeOutOfRange { position: position_b }) => *position_a == *position_b,
            (LexErrorKind::UnicodeEscapeInvalidCharValue { span: span_a }, LexErrorKind::UnicodeEscapeInvalidCharValue { span: span_b }) => *span_a == *span_b,
            (LexErrorKind::InvalidEscapeCode { position: position_a }, LexErrorKind::InvalidEscapeCode { position: position_b }) => *position_a == *position_b,
            _ => false,
        }
    }
}

impl vstd::std_specs::cmp::PartialEqSpecImpl for LexErrorKind {
    open spec fn obeys_eq_spec() -> bool {
        true
    }

    open spec fn eq_spec(&self, other: &LexErrorKind) -> bool {
        self.same(other)
    }
}

impl Eq for LexErrorKind {
}

impl PartialOrd for LexErrorKind {
    fn partial_cmp(&self, other: &LexErrorKind) -> (r: Option<Ordering>)
        ensures
            r == Some(self.cmp_spec(other)),
    {
        let o = match (self, other) {
            (LexErrorKind::UnclosedMultilineComment { unclosed_indices: unclosed_indices_a }, LexErrorKind::UnclosedMultilineComment { unclosed_indices: unclosed_indices_b }) => compare_indices(unclosed_indices_a, unclosed_indices_b),
            (LexErrorKind::UnexpectedCloseDelimiter { position: position_a, close_delimiter: close_delimiter_a }, LexErrorKind::UnexpectedCloseDelimiter { position: position_b, close_delimiter: close_delimiter_b }) => then_ordering(compare_usize(*position_a, *position_b), compare_usize(close_delimiter_a.index(), close_delimiter_b.index())),
            (LexErrorKind::MismatchedDelimiters { open_position: open_position_a, close_position: close_position_a, open_delimiter: open_delimiter_a, close_delimiter: close_delimiter_a }, LexErrorKind::MismatchedDelimiters { open_position: open_position_b, close_position: close_position_b, open_delimiter: open_delimiter_b, close_delimiter: close_delimiter_b }) => then_ordering(compare_usize(*open_position_a, *open_position_b), then_ordering(compare_usize(*close_position_a, *close_position_b), then_ordering(compare_usize(open_delimiter_a.index(), open_delimiter_b.index()), compare_usize(close_delimiter_a.index(), close_delimiter_b.index())))),
            (LexErrorKind::UnclosedDelimiter { open_position: open_position_a, open_delimiter: open_delimiter_a }, LexErrorKind::UnclosedDelimiter { open_position: open_position_b, open_delimiter: open_delimiter_b }) => then_ordering(compare_usize(*open_position_a, *open_position_b), compare_usize(open_delimiter_a.index(), open_delimiter_b.index())),
            (LexErrorKind::UnclosedStringLiteral { position: position_a }, LexErrorKind::UnclosedStringLiteral { position: position_b }) => compare_usize(*position_a, *position_b),
            (LexErrorKind::UnclosedCharLiteral { position: position_a }, LexErrorKind::UnclosedCharLiteral { position: position_b }) => compare_usize(*position_a, *position_b),
            (LexErrorKind::ExpectedCloseQuote { position: position_a }, LexErrorKind::ExpectedCloseQuote { position: position_b }) => compare_usize(*position_a, *position_b),
            (LexErrorKind::IncompleteHexIntLiteral { position: position_a }, LexErrorKind::IncompleteHexIntLiteral { position: position_b }) => compare_usize(*position_a, *position_b),
            (LexErrorKind::IncompleteBinaryIntLiteral { position: position_a }, LexErrorKind::IncompleteBinaryIntLiteral { position: position_b }) => compare_usize(*position_a, *position_b),
            (LexErrorKind::IncompleteOctalIntLiteral { position: position_a }, LexErrorKind::IncompleteOctalIntLiteral { position: position_b }) => compare_usize(*position_a, *position_b),
            (LexErrorKind::InvalidIntSuffix { suffix: suffix_a }, LexErrorKind::InvalidIntSuffix { suffix: suffix_b }) => ordering_of(suffix_a.partial_cmp(suffix_b)),
            (LexErrorKind::InvalidCharacter { position: position_a, character: character_a }, LexErrorKind::InvalidCharacter { position: position_b, character: character_b }) => then_ordering(compare_usize(*position_a, *position_b), compare_char(*character_a, *character_b)),
            (LexErrorKind::UnicodeEscapeMissingBrace { position: position_a }, LexErrorKind::UnicodeEscapeMissingBrace { position: position_b }) => compare_usize(*position_a, *position_b),
            (LexErrorKind::InvalidUnicodeEscapeDigit { position: position_a }, LexErrorKind::InvalidUnicodeEscapeDigit { position: position_b }) => compare_usize(*position_a, *position_b),
            (LexErrorKind::UnicodeEscapeOutOfRange { position: position_a }, LexErrorKind::UnicodeEscapeOutOfRange { position: position_b }) => compare_usize(*position_a, *position_b),
            (LexErrorKind::UnicodeEscapeInvalidCharValue { span: span_a }, LexErrorKind::UnicodeEscapeInvalidCharValue { span: span_b }) => ordering_of(span_a.partial_cmp(span_b)),
            (LexErrorKind::InvalidEscapeCode { position: position_a }, LexErrorKind::InvalidEscapeCode { position: position_b }) => compare_usize(*position_a, *position_b),
            _ => compare_usize(self.tag().index(), other.tag().index()),
        };
        Some(o)
    }
}

impl vstd::std_specs::cmp::PartialOrdSpecImpl for LexErrorKind {
    open spec fn obeys_partial_cmp_spec() -> bool {
        true
    }

    open spec fn partial_cmp_spec(&self, other: &LexErrorKind) -> Option<Ordering> {
        Some(self.cmp_spec(other))
    }
}

} // verus!
