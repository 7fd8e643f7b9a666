use crate::ast::Expression;
use crate::precedence::{precedence_of, Precedence};
use crate::registry::{InfixRule, PrefixRule, Registry};
use crate::token::{Token, TokenKind};
use vstd::prelude::*;

verus! {

/// Why an expression could not be parsed.
#[derive(Clone, Copy, Debug, PartialEq, Eq, Structural)]
pub enum ParseError {
    /// An expression was expected, but the current token, of this kind, has
    /// no begin-expression capability.
    NoBeginCapability(TokenKind),
}

/// The kind of the token at `i`; past the end the stream reads as end of
/// input.
pub open spec fn kind_at(toks: Seq<Token>, i: int) -> TokenKind {
    if 0 <= i < toks.len() {
        toks[i].kind
    } else {
        TokenKind::Eof
    }
}

/// Parses an expression whose first token is at `cur`, continuing only over
/// operators that bind tighter than `min`.
///
/// On success gives the expression and the position of its last token.
pub open spec fn parse_from(reg: Registry, toks: Seq<Token>, cur: int, min: Precedence) -> Result<
    (Expression, int),
    ParseError,
>
    decreases toks.len() - cur, 2int,
{
    match reg.begin_of(kind_at(toks, cur)) {
        None => Err(ParseError::NoBeginCapability(kind_at(toks, cur))),
        Some(rule) => match begin_at(reg, toks, cur, rule) {
            Err(e) => Err(e),
            Ok((lhs, end)) => if cur <= end <= toks.len() {
                climb(reg, toks, end, lhs, min)
            } else {
                Ok((lhs, end))
            },
        },
    }
}

/// What the begin-expression capability `rule` builds from the token at
/// `cur`, and the position of the last token it took.
pub open spec fn begin_at(reg: Registry, toks: Seq<Token>, cur: int, rule: PrefixRule) -> Result<
    (Expression, int),
    ParseError,
>
    decreases toks.len() - cur, 1int,
{
    match rule {
        PrefixRule::Identifier => Ok((Expression::Ident(toks[cur].text), cur)),
        PrefixRule::Literal => Ok((Expression::Literal(toks[cur].text), cur)),
        PrefixRule::Unary => if cur < toks.len() {
            match parse_from(reg, toks, cur + 1, Precedence::Prefix) {
                Err(e) => Err(e),
                Ok((operand, end)) => Ok(
                    (Expression::Prefix(kind_at(toks, cur), Box::new(operand)), end),
                ),
            }
        } else {
            Err(ParseError::NoBeginCapability(TokenKind::Eof))
        },
    }
}

/// Extends `lhs`, whose last token is at `cur`, over every following
/// operator that binds tighter than `min` and can continue an expression.
pub open spec fn climb(reg: Registry, toks: Seq<Token>, cur: int, lhs: Expression, min: Precedence) -> Result<
    (Expression, int),
    ParseError,
>
    decreases toks.len() - cur, 1int,
{
    let next = kind_at(toks, cur + 1);
    if cur + 1 < toks.len() && precedence_of(next).level() > min.level()
        && reg.continue_of(next) is Some {
        match continue_at(reg, toks, cur + 1, lhs, reg.continue_of(next)->Some_0) {
            Err(e) => Err(e),
            Ok((e, end)) => if cur < end <= toks.len() {
                climb(reg, toks, end, e, min)
            } else {
                Ok((e, end))
            },
        }
    } else {
        Ok((lhs, cur))
    }
}

/// What the continue-expression capability `rule` of the operator at `cur`
/// builds from `lhs`, and the position of the last token it took.
pub open spec fn continue_at(
    reg: Registry,
    toks: Seq<Token>,
    cur: int,
    lhs: Expression,
    rule: InfixRule,
) -> Result<(Expression, int), ParseError>
    decreases toks.len() - cur, 0int,
{
    let op = kind_at(toks, cur);
    let rhs_min = match rule {
        InfixRule::LeftAssoc => precedence_of(op),
        InfixRule::RightAssoc => precedence_of(op).below(),
    };
    if cur < toks.len() {
        match parse_from(reg, toks, cur + 1, rhs_min) {
            Err(e) => Err(e),
            Ok((rhs, end)) => Ok((Expression::Infix(Box::new(lhs), op, Box::new(rhs)), end)),
        }
    } else {
        Ok((lhs, cur))
    }
}

/// A cursor over a token sequence with a current and an upcoming token,
/// and the capabilities that drive expression parsing.
pub struct Parser {
    tokens: Vec<Token>,
    cur: usize,
    registry: Registry,
}

impl Parser {
    pub closed spec fn wf(self) -> bool {
        &&& self.cur <= self.tokens@.len()
        &&& self.registry.wf()
    }

    /// The token sequence being parsed.
    pub closed spec fn tokens(self) -> Seq<Token> {
        self.tokens@
    }

    /// The index of the current token.
    pub closed spec fn position(self) -> int {
        self.cur as int
    }

    /// The capabilities in use.
    pub closed spec fn registry(self) -> Registry {
        self.registry
    }

    /// A parser whose current token is the first of `tokens`.
    pub fn new(tokens: Vec<Token>, registry: Registry) -> (p: Parser)
        requires
            registry.wf(),
        ensures
            p.wf(),
            p.tokens() == tokens@,
            p.position() == 0,
            p.registry() == registry,
    {
        Parser { tokens, cur: 0, registry }
    }

    /// The index of the current token.
    pub fn current_position(&self) -> (r: usize)
        ensures
            r as int == self.position(),
    {
        self.cur
    }

    /// The kind of the current token.
    pub fn current_kind(&self) -> (k: TokenKind)
        requires
            self.wf(),
        ensures
            k == kind_at(self.tokens(), self.position()),
    {
        if self.cur < self.tokens.len() {
            self.tokens[self.cur].kind
        } else {
            TokenKind::Eof
        }
    }

    /// The kind of the upcoming token.
    pub fn upcoming_kind(&self) -> (k: TokenKind)
        requires
            self.wf(),
        ensures
            k == kind_at(self.tokens(), self.position() + 1),
    {
        if self.cur < self.tokens.len() && self.cur + 1 < self.tokens.len() {
            self.tokens[self.cur + 1].kind
        } else {
            TokenKind::Eof
        }
    }

    /// Makes the upcoming token the current one.
    pub fn advance(&mut self)
        requires
            old(self).wf(),
        ensures
            final(self).wf(),
            final(self).tokens() == old(self).tokens(),
            final(self).registry() == old(self).registry(),
            final(self).position() == if old(self).position() < old(self).tokens().len() {
                old(self).position() + 1
            } else {
                old(self).position()
            },
    {
        if self.cur < self.tokens.len() {
            self.cur = self.cur + 1;
        }
    }

    /// Runs the begin-expression capability `rule` of the current token.
    fn begin(&mut self, rule: PrefixRule) -> (r: Result<Expression, ParseError>)
        requires
            old(self).wf(),
            old(self).registry().begin_of(kind_at(old(self).tokens(), old(self).position()))
                == Some(rule),
        ensures
            final(self).wf(),
            final(self).tokens() == old(self).tokens(),
            final(self).registry() == old(self).registry(),
            old(self).position() <= final(self).position(),
            match r {
                Ok(e) => begin_at(old(self).registry(), old(self).tokens(), old(self).position(), rule)
                    == Ok::<(Expression, int), ParseError>((e, final(self).position())),
                Err(err) => begin_at(old(self).registry(), old(self).tokens(), old(self).position(), rule)
                    == Err::<(Expression, int), ParseError>(err),
            },
        decreases old(self).tokens().len() - old(self).position(), 1int,
    {
        proof {
            old(self).registry.lemma_end_never_begins();
        }
        match rule {
            PrefixRule::Identifier => Ok(Expression::Ident(self.tokens[self.cur].text.clone())),
            PrefixRule::Literal => Ok(Expression::Literal(self.tokens[self.cur].text.clone())),
            PrefixRule::Unary => {
                let op = self.current_kind();
                self.advance();
                match self.parse_expression(Precedence::Prefix) {
                    Ok(operand) => Ok(Expression::Prefix(op, Box::new(operand))),
                    Err(e) => Err(e),
                }
            },
        }
    }

    /// Runs the continue-expression capability `rule` of the current token
    /// on `lhs`.
    fn continue_with(&mut self, lhs: Expression, rule: InfixRule) -> (r: Result<
        Expression,
        ParseError,
    >)
        requires
            old(self).wf(),
            old(self).position() < old(self).tokens().len(),
        ensures
            final(self).wf(),
            final(self).tokens() == old(self).tokens(),
            final(self).registry() == old(self).registry(),
            old(self).position() < final(self).position(),
            match r {
                Ok(e) => continue_at(
                    old(self).registry(),
                    old(self).tokens(),
                    old(self).position(),
                    lhs,
                    rule,
                ) == Ok::<(Expression, int), ParseError>((e, final(self).position())),
                Err(err) => continue_at(
                    old(self).registry(),
                    old(self).tokens(),
                    old(self).position(),
                    lhs,
                    rule,
                ) == Err::<(Expression, int), ParseError>(err),
            },
        decreases old(self).tokens().len() - old(self).position(), 0int,
    {
        let op = self.current_kind();
        let p = Precedence::of_kind(op);
        let rhs_min = match rule {
            InfixRule::LeftAssoc => p,
            InfixRule::RightAssoc => p.one_below(),
        };
        self.advance();
        match self.parse_expression(rhs_min) {
            Ok(rhs) => Ok(Expression::Infix(Box::new(lhs), op, Box::new(rhs))),
            Err(e) => Err(e),
        }
    }

    /// Parses an expression that starts at the current token, continuing
    /// only over operators that bind tighter than `min`.
    ///
    /// Fails when the current token cannot begin an expression. On success
    /// the current token is the last one the expression took.
    pub fn parse_expression(&mut self, min: Precedence) -> (r: Result<Expression, ParseError>)
        requires
            old(self).wf(),
        ensures
            final(self).wf(),
            final(self).tokens() == old(self).tokens(),
            final(self).registry() == old(self).registry(),
            old(self).position() <= final(self).position(),
            match r {
                Ok(e) => parse_from(old(self).registry(), old(self).tokens(), old(self).position(), min)
                    == Ok::<(Expression, int), ParseError>((e, final(self).position())),
                Err(err) => parse_from(old(self).registry(), old(self).tokens(), old(self).position(), min)
                    == Err::<(Expression, int), ParseError>(err),
            },
        decreases old(self).tokens().len() - old(self).position(), 2int,
    {
        let ghost reg = self.registry;
        let ghost toks = self.tokens@;
        let ghost start = self.cur as int;
        let kind = self.current_kind();
        let rule = match self.registry.begin_rule(kind) {
            None => return Err(ParseError::NoBeginCapability(kind)),
            Some(rule) => rule,
        };
        let mut lhs = match self.begin(rule) {
            Err(e) => return Err(e),
            Ok(e) => e,
        };
        loop
            invariant
                reg == old(self).registry(),
                toks == old(self).tokens(),
                start == old(self).position(),
                self.wf(),
                self.tokens() == toks,
                self.registry() == reg,
                start <= self.position(),
                parse_from(reg, toks, start, min) == climb(reg, toks, self.position(), lhs, min),
            ensures
                self.wf(),
                self.tokens() == toks,
                self.registry() == reg,
                start <= self.position(),
                parse_from(reg, toks, start, min) == Ok::<(Expression, int), ParseError>(
                    (lhs, self.position()),
                ),
            decreases self.tokens@.len() - self.cur,
        {
            let next = self.upcoming_kind();
            let p = Precedence::of_kind(next);
            if !p.binds_tighter_than(&min) {
                break ;
            }
            let rule = match self.registry.continue_rule(next) {
                None => break ,
                Some(rule) => rule,
            };
            self.advance();
            lhs = match self.continue_with(lhs, rule) {
                Err(e) => return Err(e),
                Ok(e) => e,
            };
        }
        Ok(lhs)
    }
}

} // verus!

verus! {

/// Whether the token alone forms an operand: its begin-expression capability
/// takes no further token.
pub open spec fn is_operand(reg: Registry, t: Token) -> bool {
    reg.begin_of(t.kind) == Some(PrefixRule::Identifier) || reg.begin_of(t.kind) == Some(
        PrefixRule::Literal,
    )
}

/// The expression that an operand token forms alone.
pub open spec fn operand(reg: Registry, t: Token) -> Expression {
    if reg.begin_of(t.kind) == Some(PrefixRule::Literal) {
        Expression::Literal(t.text)
    } else {
        Expression::Ident(t.text)
    }
}

/// A token that forms an operand, with nothing after it, is the whole
/// expression: the parse ends on that token, whatever the minimum level.
pub proof fn lemma_single_operand(reg: Registry, t: Token, min: Precedence)
    requires
        is_operand(reg, t),
    ensures
        parse_from(reg, seq![t], 0, min) == Ok::<(Expression, int), ParseError>(
            (operand(reg, t), 0),
        ),
{
    let toks = seq![t];
    assert(kind_at(toks, 0) == t.kind);
    assert(kind_at(toks, 1) == TokenKind::Eof);
    assert(begin_at(reg, toks, 0, reg.begin_of(t.kind)->Some_0) == Ok::<
        (Expression, int),
        ParseError,
    >((operand(reg, t), 0)));
    assert(climb(reg, toks, 0, operand(reg, t), min) == Ok::<(Expression, int), ParseError>(
        (operand(reg, t), 0),
    ));
}

/// Two occurrences of an operator whose continue-expression capability is
/// left-associative group to the left: `a op b op c` parses as
/// `(a op b) op c`, for any minimum level below the operator's.
pub proof fn lemma_left_assoc_chain(
    reg: Registry,
    a: Token,
    op: Token,
    b: Token,
    c: Token,
    min: Precedence,
)
    requires
        is_operand(reg, a),
        is_operand(reg, b),
        is_operand(reg, c),
        reg.continue_of(op.kind) == Some(InfixRule::LeftAssoc),
        precedence_of(op.kind).level() > min.level(),
    ensures
        parse_from(reg, seq![a, op, b, op, c], 0, min) == Ok::<(Expression, int), ParseError>(
            (
                Expression::Infix(
                    Box::new(
                        Expression::Infix(
                            Box::new(operand(reg, a)),
                            op.kind,
                            Box::new(operand(reg, b)),
                        ),
                    ),
                    op.kind,
                    Box::new(operand(reg, c)),
                ),
                4,
            ),
        ),
{
    let toks = seq![a, op, b, op, c];
    let p = precedence_of(op.kind);
    let ea = operand(reg, a);
    let eb = operand(reg, b);
    let ec = operand(reg, c);
    let ab = Expression::Infix(Box::new(ea), op.kind, Box::new(eb));
    let abc = Expression::Infix(Box::new(ab), op.kind, Box::new(ec));
    assert(kind_at(toks, 0) == a.kind);
    assert(kind_at(toks, 1) == op.kind);
    assert(kind_at(toks, 2) == b.kind);
    assert(kind_at(toks, 3) == op.kind);
    assert(kind_at(toks, 4) == c.kind);
    assert(kind_at(toks, 5) == TokenKind::Eof);

    assert(begin_at(reg, toks, 4, reg.begin_of(c.kind)->Some_0) == Ok::<
        (Expression, int),
        ParseError,
    >((ec, 4)));
    assert(climb(reg, toks, 4, ec, p) == Ok::<(Expression, int), ParseError>((ec, 4)));
    assert(parse_from(reg, toks, 4, p) == Ok::<(Expression, int), ParseError>((ec, 4)));
    assert(continue_at(reg, toks, 3, ab, InfixRule::LeftAssoc) == Ok::<
        (Expression, int),
        ParseError,
    >((abc, 4)));
    assert(climb(reg, toks, 4, abc, min) == Ok::<(Expression, int), ParseError>((abc, 4)));
    assert(climb(reg, toks, 2, ab, min) == Ok::<(Expression, int), ParseError>((abc, 4)));

    assert(begin_at(reg, toks, 2, reg.begin_of(b.kind)->Some_0) == Ok::<
        (Expression, int),
        ParseError,
    >((eb, 2)));
    assert(climb(reg, toks, 2, eb, p) == Ok::<(Expression, int), ParseError>((eb, 2)));
    assert(parse_from(reg, toks, 2, p) == Ok::<(Expression, int), ParseError>((eb, 2)));
    assert(continue_at(reg, toks, 1, ea, InfixRule::LeftAssoc) == Ok::<
        (Expression, int),
        ParseError,
    >((ab, 2)));
    assert(climb(reg, toks, 0, ea, min) == Ok::<(Expression, int), ParseError>((abc, 4)));

    assert(begin_at(reg, toks, 0, reg.begin_of(a.kind)->Some_0) == Ok::<
        (Expression, int),
        ParseError,
    >((ea, 0)));
}

} // verus!
