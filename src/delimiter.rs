//! The kinds of bracket that open and close a delimited group of tokens.
use core::cmp::Ordering;
use vstd::prelude::*;

use crate::order::{compare_usize, ord_of};

verus! {

/// The bracket that opens a delimited group.
#[derive(Debug, Clone, Copy, PartialEq, Eq, Structural, Hash)]
pub enum OpeningDelimiter {
    Parenthesis,
    Brace,
    SquareBracket,
}

/// The bracket that closes a delimited group.
#[derive(Debug, Clone, Copy, PartialEq, Eq, Structural, Hash)]
pub enum ClosingDelimiter {
    Parenthesis,
    Brace,
    SquareBracket,
}

impl OpeningDelimiter {
    /// Position of the delimiter in declaration order.
    pub open spec fn rank(self) -> int {
        match self {
            OpeningDelimiter::Parenthesis => 0,
            OpeningDelimiter::Brace => 1,
            OpeningDelimiter::SquareBracket => 2,
        }
    }

    /// Position of the delimiter in declaration order.
    pub fn index(self) -> (r: usize)
        ensures
            r as int == self.rank(),
    {
        match self {
            OpeningDelimiter::Parenthesis => 0,
            OpeningDelimiter::Brace => 1,
            OpeningDelimiter::SquareBracket => 2,
        }
    }
}

impl PartialOrd for OpeningDelimiter {
    fn partial_cmp(&self, other: &OpeningDelimiter) -> (r: Option<Ordering>)
        ensures
            r == Some(ord_of(self.rank(), other.rank())),
    {
        Some(compare_usize(self.index(), other.index()))
    }
}

impl vstd::std_specs::cmp::PartialOrdSpecImpl for OpeningDelimiter {
    open spec fn obeys_partial_cmp_spec() -> bool {
        true
    }

    open spec fn partial_cmp_spec(&self, other: &OpeningDelimiter) -> Option<Ordering> {
        Some(ord_of(self.rank(), other.rank()))
    }
}

impl ClosingDelimiter {
    /// Position of the delimiter in declaration order.
    pub open spec fn rank(self) -> int {
        match self {
            ClosingDelimiter::Parenthesis => 0,
            ClosingDelimiter::Brace => 1,
            ClosingDelimiter::SquareBracket => 2,
        }
    }

    /// Position of the delimiter in declaration order.
    pub fn index(self) -> (r: usize)
        ensures
            r as int == self.rank(),
    {
        match self {
            ClosingDelimiter::Parenthesis => 0,
            ClosingDelimiter::Brace => 1,
            ClosingDelimiter::SquareBracket => 2,
        }
    }
}

impl PartialOrd for ClosingDelimiter {
    fn partial_cmp(&self, other: &ClosingDelimiter) -> (r: Option<Ordering>)
        ensures
            r == Some(ord_of(self.rank(), other.rank())),
    {
        Some(compare_usize(self.index(), other.index()))
    }
}

impl vstd::std_specs::cmp::PartialOrdSpecImpl for ClosingDelimiter {
    open spec fn obeys_partial_cmp_spec() -> bool {
        true
    }

    open spec fn partial_cmp_spec(&self, other: &ClosingDelimiter) -> Option<Ordering> {
        Some(ord_of(self.rank(), other.rank()))
    }
}

} // verus!
