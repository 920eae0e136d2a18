//! Ranges over source text, identifiers that carry one, and the capability of
//! reporting a source location.
use core::cmp::Ordering;
use vstd::prelude::*;

use crate::order::{
    compare_text, compare_usize, lemma_char_ints_injective, lemma_seq_cmp_equal,
    lemma_seq_cmp_flip, lemma_seq_cmp_less_trans, ord_of, text_cmp, then_cmp,
};

verus! {

/// A range of byte offsets `start..end` in one source file.
#[derive(Debug, Clone, Copy, PartialEq, Eq, Structural, Hash)]
pub struct Span {
    pub start: usize,
    pub end: usize,
    /// The file the offsets point into, where it is known.
    pub source_id: Option<u32>,
}

/// Anything that can say which part of the source it is about.
pub trait Spanned {
    spec fn spec_span(&self) -> Span;

    fn span(&self) -> (r: Span)
        ensures
            r == self.spec_span(),
    ;
}

/// Orders an absent file before every present one, present ones by number.
pub open spec fn source_rank(id: Option<u32>) -> int {
    match id {
        None => -1,
        Some(n) => n as int,
    }
}

impl Span {
    /// The range does not run backwards.
    pub open spec fn wf(&self) -> bool {
        self.start <= self.end
    }

    /// Field-by-field order: start, then end, then file.
    pub open spec fn cmp_spec(&self, other: &Span) -> Ordering {
        then_cmp(
            ord_of(self.start as int, other.start as int),
            then_cmp(
                ord_of(self.end as int, other.end as int),
                ord_of(source_rank(self.source_id), source_rank(other.source_id)),
            ),
        )
    }

    /// A span from `start` to `end`; none where `end` lies before `start`.
    pub fn new(start: usize, end: usize, source_id: Option<u32>) -> (r: Option<Span>)
        ensures
            start <= end <==> r is Some,
            r matches Some(s) ==> s.start == start && s.end == end && s.source_id == source_id,
    {
        if start <= end {
            Some(Span { start, end, source_id })
        } else {
            None
        }
    }

    /// The three-way comparison agrees with `==`, is antisymmetric, and
    /// `Less` is transitive.
    pub proof fn lemma_cmp(a: Span, b: Span, c: Span)
        ensures
            a.cmp_spec(&b) == Ordering::Equal <==> a == b,
            b.cmp_spec(&a) == crate::order::flip(a.cmp_spec(&b)),
            a.cmp_spec(&b) == Ordering::Less && b.cmp_spec(&c) == Ordering::Less ==> a.cmp_spec(&c)
                == Ordering::Less,
    {
    }
}

impl PartialOrd for Span {
    fn partial_cmp(&self, other: &Span) -> (r: Option<Ordering>)
        ensures
            r == Some(self.cmp_spec(other)),
    {
        match compare_usize(self.start, other.start) {
            Ordering::Equal => {},
            o => return Some(o),
        }
        match compare_usize(self.end, other.end) {
            Ordering::Equal => {},
            o => return Some(o),
        }
        let o = match (self.source_id, other.source_id) {
            (None, None) => Ordering::Equal,
            (None, Some(_)) => Ordering::Less,
            (Some(_), None) => Ordering::Greater,
            (Some(x), Some(y)) => {
                if x < y {
                    Ordering::Less
                } else if x == y {
                    Ordering::Equal
                } else {
                    Ordering::Greater
                }
            },
        };
        Some(o)
    }
}

impl vstd::std_specs::cmp::PartialOrdSpecImpl for Span {
    open spec fn obeys_partial_cmp_spec() -> bool {
        true
    }

    open spec fn partial_cmp_spec(&self, other: &Span) -> Option<Ordering> {
        Some(self.cmp_spec(other))
    }
}

/// A name written in the source, with the span it was written at.
#[derive(Debug, Clone, Hash)]
pub struct Ident {
    pub name: String,
    pub span: Span,
}

impl Ident {
    /// Same text and same span.
    pub open spec fn same(&self, other: &Ident) -> bool {
        self.name@ == other.name@ && self.span == other.span
    }

    /// Field-by-field order: text by code point, then span.
    pub open spec fn cmp_spec(&self, other: &Ident) -> Ordering {
        then_cmp(text_cmp(self.name@, other.name@), self.span.cmp_spec(&other.span))
    }

    /// An identifier with the given text, written at `span`.
    pub fn new(name: String, span: Span) -> (r: Ident)
        ensures
            r.name@ == name@,
            r.span == span,
    {
        Ident { name, span }
    }

    /// The text of the name.
    pub fn as_str(&self) -> (r: &str)
        ensures
            r@ == self.name@,
    {
        self.name.as_str()
    }

    /// The three-way comparison agrees with `same`, is antisymmetric, and
    /// `Less` is transitive.
    pub proof fn lemma_cmp(a: &Ident, b: &Ident, c: &Ident)
        ensures
            a.cmp_spec(b) == Ordering::Equal <==> a.same(b),
            b.cmp_spec(a) == crate::order::flip(a.cmp_spec(b)),
            a.cmp_spec(b) == Ordering::Less && b.cmp_spec(c) == Ordering::Less ==> a.cmp_spec(c)
                == Ordering::Less,
    {
        Span::lemma_cmp(a.span, b.span, c.span);
        let (na, nb, nc) = (
            crate::order::char_ints(a.name@),
            crate::order::char_ints(b.name@),
            crate::order::char_ints(c.name@),
        );
        lemma_seq_cmp_equal(na, nb);
        lemma_seq_cmp_equal(nb, nc);
        lemma_seq_cmp_equal(na, nc);
        lemma_seq_cmp_flip(na, nb);
        if na == nb {
            lemma_char_ints_injective(a.name@, b.name@);
        }
        if a.cmp_spec(b) == Ordering::Less && b.cmp_spec(c) == Ordering::Less {
            if text_cmp(a.name@, b.name@) == Ordering::Less && text_cmp(b.name@, c.name@)
                == Ordering::Less {
                lemma_seq_cmp_less_trans(na, nb, nc);
            }
        }
    }
}

impl Spanned for Ident {
    open spec fn spec_span(&self) -> Span {
        self.span
    }

    fn span(&self) -> (r: Span) {
        self.span
    }
}

impl PartialEq for Ident {
    fn eq(&self, other: &Ident) -> (r: bool)
        ensures
            r == self.same(other),
    {
        self.name == other.name && self.span == other.span
    }
}

impl vstd::std_specs::cmp::PartialEqSpecImpl for Ident {
    open spec fn obeys_eq_spec() -> bool {
        true
    }

    open spec fn eq_spec(&self, other: &Ident) -> bool {
        self.same(other)
    }
}

impl Eq for Ident {
}

impl PartialOrd for Ident {
    fn partial_cmp(&self, other: &Ident) -> (r: Option<Ordering>)
        ensures
            r == Some(self.cmp_spec(other)),
    {
        match compare_text(self.name.as_str(), other.name.as_str()) {
            Ordering::Equal => self.span.partial_cmp(&other.span),
            o => Some(o),
        }
    }
}

impl vstd::std_specs::cmp::PartialOrdSpecImpl for Ident {
    open spec fn obeys_partial_cmp_spec() -> bool {
        true
    }

    open spec fn partial_cmp_spec(&self, other: &Ident) -> Option<Ordering> {
        Some(self.cmp_spec(other))
    }
}

} // verus!
