use crate::token::TokenKind;
use vstd::prelude::*;

verus! {

/// How a token begins an expression.
#[derive(Clone, Copy, Debug, PartialEq, Eq, Structural)]
pub enum PrefixRule {
    /// The token alone is a name.
    Identifier,
    /// The token alone is a literal.
    Literal,
    /// The token is a unary operator; its operand is parsed at `Prefix`.
    Unary,
}

/// How a token continues an expression that stands to its left.
#[derive(Clone, Copy, Debug, PartialEq, Eq, Structural)]
pub enum InfixRule {
    /// A binary operator whose right operand is parsed at its own level.
    LeftAssoc,
    /// A binary operator whose right operand is parsed one level lower.
    RightAssoc,
}

/// Number of token kinds.
pub const KIND_COUNT: usize = 21;

/// The slot of a token kind in the registry's tables.
pub open spec fn slot(kind: TokenKind) -> nat {
    match kind {
        TokenKind::Equal => 0,
        TokenKind::NotEqual => 1,
        TokenKind::Less => 2,
        TokenKind::Greater => 3,
        TokenKind::Plus => 4,
        TokenKind::Minus => 5,
        TokenKind::Star => 6,
        TokenKind::Slash => 7,
        TokenKind::Bang => 8,
        TokenKind::Assign => 9,
        TokenKind::LeftParen => 10,
        TokenKind::RightParen => 11,
        TokenKind::LeftBracket => 12,
        TokenKind::RightBracket => 13,
        TokenKind::Comma => 14,
        TokenKind::Semicolon => 15,
        TokenKind::Ident => 16,
        TokenKind::Integer => 17,
        TokenKind::Keyword => 18,
        TokenKind::Eof => 19,
        TokenKind::Illegal => 20,
    }
}

fn slot_of(kind: TokenKind) -> (r: usize)
    ensures
        r as nat == slot(kind),
        r < KIND_COUNT,
{
    match kind {
        TokenKind::Equal => 0,
        TokenKind::NotEqual => 1,
        TokenKind::Less => 2,
        TokenKind::Greater => 3,
        TokenKind::Plus => 4,
        TokenKind::Minus => 5,
        TokenKind::Star => 6,
        TokenKind::Slash => 7,
        TokenKind::Bang => 8,
        TokenKind::Assign => 9,
        TokenKind::LeftParen => 10,
        TokenKind::RightParen => 11,
        TokenKind::LeftBracket => 12,
        TokenKind::RightBracket => 13,
        TokenKind::Comma => 14,
        TokenKind::Semicolon => 15,
        TokenKind::Ident => 16,
        TokenKind::Integer => 17,
        TokenKind::Keyword => 18,
        TokenKind::Eof => 19,
        TokenKind::Illegal => 20,
    }
}

/// For each token kind, at most one begin-expression and at most one
/// continue-expression capability.
///
/// End of input never begins an expression.
#[derive(Clone, Debug)]
pub struct Registry {
    prefix: Vec<Option<PrefixRule>>,
    infix: Vec<Option<InfixRule>>,
}

impl Registry {
    pub closed spec fn wf(self) -> bool {
        &&& self.prefix@.len() == KIND_COUNT
        &&& self.infix@.len() == KIND_COUNT
        &&& self.prefix@[slot(TokenKind::Eof) as int] is None
    }

    /// The begin-expression capability of a kind, if any.
    pub closed spec fn begin_of(self, kind: TokenKind) -> Option<PrefixRule> {
        self.prefix@[slot(kind) as int]
    }

    /// The continue-expression capability of a kind, if any.
    pub closed spec fn continue_of(self, kind: TokenKind) -> Option<InfixRule> {
        self.infix@[slot(kind) as int]
    }

    /// End of input has no begin-expression capability.
    pub proof fn lemma_end_never_begins(self)
        requires
            self.wf(),
        ensures
            self.begin_of(TokenKind::Eof) is None,
    {
    }

    /// A registry with no capability at all.
    pub fn new() -> (r: Registry)
        ensures
            r.wf(),
            forall|k: TokenKind| r.begin_of(k) is None && r.continue_of(k) is None,
    {
        let mut prefix: Vec<Option<PrefixRule>> = Vec::new();
        let mut infix: Vec<Option<InfixRule>> = Vec::new();
        let mut i: usize = 0;
        while i < KIND_COUNT
            invariant
                i <= KIND_COUNT,
                prefix@.len() == i,
                infix@.len() == i,
                forall|j: int| 0 <= j < i ==> prefix@[j] is None && infix@[j] is None,
            decreases KIND_COUNT - i,
        {
            prefix.push(None);
            infix.push(None);
            i = i + 1;
        }
        let r = Registry { prefix, infix };
        assert forall|k: TokenKind| r.begin_of(k) is None && r.continue_of(k) is None by {
            assert(slot(k) < KIND_COUNT);
        }
        r
    }

    /// Gives `kind` the begin-expression capability `rule`, replacing any it
    /// had. End of input is left without one.
    pub fn set_begin(&mut self, kind: TokenKind, rule: PrefixRule)
        requires
            old(self).wf(),
        ensures
            final(self).wf(),
            forall|k: TokenKind|
                #[trigger] final(self).begin_of(k) == if k == kind && kind != TokenKind::Eof {
                    Some(rule)
                } else {
                    old(self).begin_of(k)
                },
            forall|k: TokenKind| #[trigger] final(self).continue_of(k) == old(self).continue_of(k),
    {
        if kind != TokenKind::Eof {
            let i = slot_of(kind);
            self.prefix.set(i, Some(rule));
            assert forall|k: TokenKind| k != kind implies slot(k) != slot(kind) by {}
        }
    }

    /// Gives `kind` the continue-expression capability `rule`, replacing any
    /// it had.
    pub fn set_continue(&mut self, kind: TokenKind, rule: InfixRule)
        requires
            old(self).wf(),
        ensures
            final(self).wf(),
            forall|k: TokenKind| #[trigger] final(self).begin_of(k) == old(self).begin_of(k),
            forall|k: TokenKind|
                #[trigger] final(self).continue_of(k) == if k == kind {
                    Some(rule)
                } else {
                    old(self).continue_of(k)
                },
    {
        let i = slot_of(kind);
        self.infix.set(i, Some(rule));
        assert forall|k: TokenKind| k != kind implies slot(k) != slot(kind) by {}
    }

    /// Looks up the begin-expression capability of a kind.
    pub fn begin_rule(&self, kind: TokenKind) -> (r: Option<PrefixRule>)
        requires
            self.wf(),
        ensures
            r == self.begin_of(kind),
    {
        self.prefix[slot_of(kind)]
    }

    /// Looks up the continue-expression capability of a kind.
    pub fn continue_rule(&self, kind: TokenKind) -> (r: Option<InfixRule>)
        requires
            self.wf(),
        ensures
            r == self.continue_of(kind),
    {
        self.infix[slot_of(kind)]
    }
}

/// The begin-expression capabilities of the usual grammar: names, integer
/// literals, and `-` and `!` as unary operators.
pub open spec fn usual_begin(kind: TokenKind) -> Option<PrefixRule> {
    match kind {
        TokenKind::Ident => Some(PrefixRule::Identifier),
        TokenKind::Integer => Some(PrefixRule::Literal),
        TokenKind::Minus | TokenKind::Bang => Some(PrefixRule::Unary),
        _ => None,
    }
}

/// The continue-expression capabilities of the usual grammar: the
/// arithmetic, equality and comparison operators, all left-associative.
pub open spec fn usual_continue(kind: TokenKind) -> Option<InfixRule> {
    match kind {
        TokenKind::Plus | TokenKind::Minus | TokenKind::Star | TokenKind::Slash
        | TokenKind::Equal | TokenKind::NotEqual | TokenKind::Less | TokenKind::Greater => Some(
            InfixRule::LeftAssoc,
        ),
        _ => None,
    }
}

impl Registry {
    /// The registry of the usual grammar.
    pub fn usual() -> (r: Registry)
        ensures
            r.wf(),
            forall|k: TokenKind| #[trigger] r.begin_of(k) == usual_begin(k),
            forall|k: TokenKind| #[trigger] r.continue_of(k) == usual_continue(k),
    {
        let mut r = Registry::new();
        r.set_begin(TokenKind::Ident, PrefixRule::Identifier);
        r.set_begin(TokenKind::Integer, PrefixRule::Literal);
        r.set_begin(TokenKind::Minus, PrefixRule::Unary);
        r.set_begin(TokenKind::Bang, PrefixRule::Unary);
        r.set_continue(TokenKind::Plus, InfixRule::LeftAssoc);
        r.set_continue(TokenKind::Minus, InfixRule::LeftAssoc);
        r.set_continue(TokenKind::Star, InfixRule::LeftAssoc);
        r.set_continue(TokenKind::Slash, InfixRule::LeftAssoc);
        r.set_continue(TokenKind::Equal, InfixRule::LeftAssoc);
        r.set_continue(TokenKind::NotEqual, InfixRule::LeftAssoc);
        r.set_continue(TokenKind::Less, InfixRule::LeftAssoc);
        r.set_continue(TokenKind::Greater, InfixRule::LeftAssoc);
        r
    }
}

} // verus!
