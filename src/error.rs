//! A lexical failure together with the span of source text it is about.
use core::cmp::Ordering;
use vstd::laws_cmp::obeys_partial_cmp_spec_properties;
use vstd::laws_eq::obeys_eq_spec_properties;
use vstd::prelude::*;
use vstd::std_specs::cmp::{PartialEqSpec, PartialOrdSpec};

use crate::kind::LexErrorKind;
use crate::order::then_cmp;
use crate::span::{Span, Spanned};

verus! {

/// A lexical failure and the span of source text it pertains to.
#[derive(Debug, Clone, Hash)]
pub struct LexError {
    pub span: Span,
    pub kind: LexErrorKind,
}

impl LexError {
    /// Pairs a failure with its span.
    pub fn new(span: Span, kind: LexErrorKind) -> (r: LexError)
        ensures
            r == (LexError { span, kind }),
    {
        LexError { span, kind }
    }

    /// The span, borrowed.
    pub fn span_ref(&self) -> (r: &Span)
        ensures
            *r == self.span,
    {
        &self.span
    }

    /// The message that reports the failure; the span is left to the renderer.
    pub fn message(&self) -> (r: String)
        ensures
            r@ == self.kind.message_text(),
    {
        self.kind.message()
    }

    /// The span and every position lie in a source text of `source_len` bytes,
    /// and the positions keep the order the scan met them in.
    pub open spec fn wf(&self, source_len: nat) -> bool {
        &&& self.span.wf()
        &&& self.span.end <= source_len
        &&& self.kind.wf(source_len)
    }

    /// Whether `wf(source_len)` holds.
    pub fn is_well_formed(&self, source_len: usize) -> (r: bool)
        ensures
            r == self.wf(source_len as nat),
    {
        self.span.start <= self.span.end && self.span.end <= source_len
            && self.kind.is_well_formed(source_len)
    }

    /// The same span and the same failure.
    pub open spec fn same(&self, other: &LexError) -> bool {
        self.span == other.span && self.kind.same(&other.kind)
    }

    /// By span, then by failure.
    pub open spec fn cmp_spec(&self, other: &LexError) -> Ordering {
        then_cmp(self.span.cmp_spec(&other.span), self.kind.cmp_spec(&other.kind))
    }
}

impl Spanned for LexError {
    open spec fn spec_span(&self) -> Span {
        self.span
    }

    fn span(&self) -> (r: Span) {
        self.span
    }
}

impl PartialEq for LexError {
    fn eq(&self, other: &LexError) -> (r: bool)
        ensures
            r == self.same(other),
    {
        self.span == other.span && self.kind == other.kind
    }
}

impl vstd::std_specs::cmp::PartialEqSpecImpl for LexError {
    open spec fn obeys_eq_spec() -> bool {
        true
    }

    open spec fn eq_spec(&self, other: &LexError) -> bool {
        self.same(other)
    }
}

impl Eq for LexError {
}

impl PartialOrd for LexError {
    fn partial_cmp(&self, other: &LexError) -> (r: Option<Ordering>)
        ensures
            r == Some(self.cmp_spec(other)),
    {
        match self.span.partial_cmp(&other.span) {
            Some(Ordering::Equal) => self.kind.partial_cmp(&other.kind),
            o => o,
        }
    }
}

impl vstd::std_specs::cmp::PartialOrdSpecImpl for LexError {
    open spec fn obeys_partial_cmp_spec() -> bool {
        true
    }

    open spec fn partial_cmp_spec(&self, other: &LexError) -> Option<Ordering> {
        Some(self.cmp_spec(other))
    }
}

/// The span a built error reports is the span it was built with.
pub proof fn lemma_span_of_new(span: Span, kind: LexErrorKind)
    ensures
        (LexError { span, kind }).spec_span() == span,
{
}

/// Two errors are equal exactly when their spans are equal and their failures
/// are the same variant with the same payload; the order always decides, calls
/// two values `Equal` exactly when they are equal, is antisymmetric and
/// transitive, and equality is symmetric and transitive.
pub proof fn lemma_order_is_total()
    ensures
        forall|a: LexError, b: LexError|
            #[trigger] a.eq_spec(&b) <==> (a.span == b.span && a.kind.same(&b.kind)),
        forall|a: LexError, b: LexError| #[trigger] a.partial_cmp_spec(&b) is Some,
        obeys_partial_cmp_spec_properties::<LexError>(),
        obeys_partial_cmp_spec_properties::<LexErrorKind>(),
{
    assert forall|x: LexErrorKind, y: LexErrorKind|
        (#[trigger] x.partial_cmp_spec(&y) == Some(Ordering::Equal) <==> x.eq_spec(&y)) && (
        x.partial_cmp_spec(&y) == Some(Ordering::Less) <==> y.partial_cmp_spec(&x) == Some(
            Ordering::Greater,
        )) by {
        LexErrorKind::lemma_cmp(&x, &y, &x);
    }
    assert forall|x: LexErrorKind, y: LexErrorKind| #[trigger] x.eq_spec(&y) <==> y.eq_spec(&x) by {
        LexErrorKind::lemma_cmp(&x, &y, &x);
    }
    assert forall|x: LexErrorKind, y: LexErrorKind, z: LexErrorKind|
        x.partial_cmp_spec(&y) == Some(Ordering::Less) && #[trigger] y.partial_cmp_spec(&z) == Some(
            Ordering::Less,
        ) implies #[trigger] x.partial_cmp_spec(&z) == Some(Ordering::Less) by {
        LexErrorKind::lemma_cmp(&x, &y, &z);
        LexErrorKind::lemma_cmp(&y, &z, &x);
        LexErrorKind::lemma_cmp(&x, &z, &y);
    }
    assert forall|x: LexErrorKind, y: LexErrorKind, z: LexErrorKind|
        x.partial_cmp_spec(&y) == Some(Ordering::Greater) && #[trigger] y.partial_cmp_spec(&z)
            == Some(Ordering::Greater) implies #[trigger] x.partial_cmp_spec(&z) == Some(
            Ordering::Greater,
        ) by {
        LexErrorKind::lemma_cmp(&z, &y, &x);
        LexErrorKind::lemma_cmp(&y, &x, &z);
        LexErrorKind::lemma_cmp(&z, &x, &y);
    }
    assert forall|x: LexErrorKind, y: LexErrorKind, z: LexErrorKind|
        x.eq_spec(&y) && #[trigger] y.eq_spec(&z) implies #[trigger] x.eq_spec(&z) by {
        LexErrorKind::lemma_cmp(&x, &y, &z);
        LexErrorKind::lemma_cmp(&y, &z, &x);
        LexErrorKind::lemma_cmp(&x, &z, &y);
    }
    assert forall|x: LexError, y: LexError|
        (#[trigger] x.partial_cmp_spec(&y) == Some(Ordering::Equal) <==> x.eq_spec(&y)) && (
        x.partial_cmp_spec(&y) == Some(Ordering::Less) <==> y.partial_cmp_spec(&x) == Some(
            Ordering::Greater,
        )) by {
        Span::lemma_cmp(x.span, y.span, x.span);
        LexErrorKind::lemma_cmp(&x.kind, &y.kind, &x.kind);
    }
    assert forall|x: LexError, y: LexError| #[trigger] x.eq_spec(&y) <==> y.eq_spec(&x) by {
        Span::lemma_cmp(x.span, y.span, x.span);
        LexErrorKind::lemma_cmp(&x.kind, &y.kind, &x.kind);
    }
    assert forall|x: LexError, y: LexError, z: LexError|
        x.partial_cmp_spec(&y) == Some(Ordering::Less) && #[trigger] y.partial_cmp_spec(&z) == Some(
            Ordering::Less,
        ) implies #[trigger] x.partial_cmp_spec(&z) == Some(Ordering::Less) by {
        Span::lemma_cmp(x.span, y.span, z.span);
        Span::lemma_cmp(y.span, z.span, x.span);
        Span::lemma_cmp(x.span, z.span, y.span);
        LexErrorKind::lemma_cmp(&x.kind, &y.kind, &z.kind);
        LexErrorKind::lemma_cmp(&y.kind, &z.kind, &x.kind);
        LexErrorKind::lemma_cmp(&x.kind, &z.kind, &y.kind);
    }
    assert forall|x: LexError, y: LexError, z: LexError|
        x.partial_cmp_spec(&y) == Some(Ordering::Greater) && #[trigger] y.partial_cmp_spec(&z)
            == Some(Ordering::Greater) implies #[trigger] x.partial_cmp_spec(&z) == Some(
            Ordering::Greater,
        ) by {
        Span::lemma_cmp(z.span, y.span, x.span);
        Span::lemma_cmp(y.span, x.span, z.span);
        Span::lemma_cmp(z.span, x.span, y.span);
        LexErrorKind::lemma_cmp(&z.kind, &y.kind, &x.kind);
        LexErrorKind::lemma_cmp(&y.kind, &x.kind, &z.kind);
        LexErrorKind::lemma_cmp(&z.kind, &x.kind, &y.kind);
    }
    assert forall|x: LexError, y: LexError, z: LexError|
        x.eq_spec(&y) && #[trigger] y.eq_spec(&z) implies #[trigger] x.eq_spec(&z) by {
        Span::lemma_cmp(x.span, y.span, z.span);
        Span::lemma_cmp(y.span, z.span, x.span);
        Span::lemma_cmp(x.span, z.span, y.span);
        LexErrorKind::lemma_cmp(&x.kind, &y.kind, &z.kind);
        LexErrorKind::lemma_cmp(&y.kind, &z.kind, &x.kind);
        LexErrorKind::lemma_cmp(&x.kind, &z.kind, &y.kind);
    }
    reveal(obeys_partial_cmp_spec_properties);
    reveal(obeys_eq_spec_properties);
}

} // verus!
