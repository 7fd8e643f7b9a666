use crate::token::{Token, TokenKind};
use vstd::prelude::*;

verus! {

/// Binding strength of a token, from weakest to strongest.
///
/// The order is given by [`Precedence::rank`], not by the order of the
/// variants.
#[derive(Clone, Copy, Debug, PartialEq, Eq, Structural)]
pub enum Precedence {
    Lowest,
    Equals,
    LessGreater,
    Sum,
    Product,
    Prefix,
    Call,
    Index,
}

/// The binding strength that the table gives a token kind.
pub open spec fn precedence_of(kind: TokenKind) -> Precedence {
    match kind {
        TokenKind::Equal | TokenKind::NotEqual => Precedence::Equals,
        TokenKind::Less | TokenKind::Greater => Precedence::LessGreater,
        TokenKind::Plus | TokenKind::Minus => Precedence::Sum,
        TokenKind::Star | TokenKind::Slash => Precedence::Product,
        TokenKind::LeftParen => Precedence::Call,
        TokenKind::LeftBracket => Precedence::Index,
        _ => Precedence::Lowest,
    }
}

impl Precedence {
    /// The position of this level in the ranking; higher binds tighter.
    pub open spec fn level(self) -> nat {
        match self {
            Precedence::Lowest => 0,
            Precedence::Equals => 1,
            Precedence::LessGreater => 2,
            Precedence::Sum => 3,
            Precedence::Product => 4,
            Precedence::Prefix => 5,
            Precedence::Call => 6,
            Precedence::Index => 7,
        }
    }

    /// The rank of this level as an integer; higher binds tighter.
    pub fn rank(&self) -> (r: u8)
        ensures
            r as nat == self.level(),
    {
        match self {
            Precedence::Lowest => 0,
            Precedence::Equals => 1,
            Precedence::LessGreater => 2,
            Precedence::Sum => 3,
            Precedence::Product => 4,
            Precedence::Prefix => 5,
            Precedence::Call => 6,
            Precedence::Index => 7,
        }
    }

    /// Whether this level binds strictly tighter than `other`.
    pub fn binds_tighter_than(&self, other: &Precedence) -> (r: bool)
        ensures
            r == (self.level() > other.level()),
    {
        self.rank() > other.rank()
    }

    /// The binding strength of a token, decided by its kind alone.
    pub fn token_precedence(tok: &Token) -> (r: Precedence)
        ensures
            r == precedence_of(tok.kind),
    {
        Precedence::of_kind(tok.kind)
    }

    /// The binding strength of a token kind.
    pub fn of_kind(kind: TokenKind) -> (r: Precedence)
        ensures
            r == precedence_of(kind),
    {
        match kind {
            TokenKind::Equal => Precedence::Equals,
            TokenKind::NotEqual => Precedence::Equals,
            TokenKind::Less => Precedence::LessGreater,
            TokenKind::Greater => Precedence::LessGreater,
            TokenKind::Plus => Precedence::Sum,
            TokenKind::Minus => Precedence::Sum,
            TokenKind::Slash => Precedence::Product,
            TokenKind::Star => Precedence::Product,
            TokenKind::LeftParen => Precedence::Call,
            TokenKind::LeftBracket => Precedence::Index,
            _ => Precedence::Lowest,
        }
    }

    /// The level one step weaker; `Lowest` stays `Lowest`.
    pub open spec fn below(self) -> Precedence {
        match self {
            Precedence::Lowest => Precedence::Lowest,
            Precedence::Equals => Precedence::Lowest,
            Precedence::LessGreater => Precedence::Equals,
            Precedence::Sum => Precedence::LessGreater,
            Precedence::Product => Precedence::Sum,
            Precedence::Prefix => Precedence::Product,
            Precedence::Call => Precedence::Prefix,
            Precedence::Index => Precedence::Call,
        }
    }

    /// The level one step weaker; `Lowest` stays `Lowest`.
    pub fn one_below(&self) -> (r: Precedence)
        ensures
            r == self.below(),
    {
        match self {
            Precedence::Lowest => Precedence::Lowest,
            Precedence::Equals => Precedence::Lowest,
            Precedence::LessGreater => Precedence::Equals,
            Precedence::Sum => Precedence::LessGreater,
            Precedence::Product => Precedence::Sum,
            Precedence::Prefix => Precedence::Product,
            Precedence::Call => Precedence::Prefix,
            Precedence::Index => Precedence::Call,
        }
    }
}

/// Levels compare by rank.
pub open spec fn compare_levels(a: Precedence, b: Precedence) -> Option<core::cmp::Ordering> {
    if a.level() < b.level() {
        Some(core::cmp::Ordering::Less)
    } else if a.level() > b.level() {
        Some(core::cmp::Ordering::Greater)
    } else {
        Some(core::cmp::Ordering::Equal)
    }
}

impl PartialOrd for Precedence {
    fn partial_cmp(&self, other: &Precedence) -> (r: Option<core::cmp::Ordering>)
        ensures
            r == compare_levels(*self, *other),
    {
        let a = self.rank();
        let b = other.rank();
        if a < b {
            Some(core::cmp::Ordering::Less)
        } else if a > b {
            Some(core::cmp::Ordering::Greater)
        } else {
            Some(core::cmp::Ordering::Equal)
        }
    }
}

impl vstd::std_specs::cmp::PartialOrdSpecImpl for Precedence {
    open spec fn obeys_partial_cmp_spec() -> bool {
        true
    }

    open spec fn partial_cmp_spec(&self, other: &Precedence) -> Option<core::cmp::Ordering> {
        compare_levels(*self, *other)
    }
}

impl<'a> From<&'a Token> for Precedence {
    fn from(t: &'a Token) -> (r: Precedence)
        ensures
            r == precedence_of(t.kind),
    {
        Precedence::token_precedence(t)
    }
}

impl<'a> vstd::std_specs::convert::FromSpecImpl<&'a Token> for Precedence {
    open spec fn obeys_from_spec() -> bool {
        true
    }

    open spec fn from_spec(t: &'a Token) -> Precedence {
        precedence_of(t.kind)
    }
}

} // verus!
