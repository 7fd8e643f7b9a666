use librasac_parser::{Precedence, Token, TokenKind};

fn level_of(kind: TokenKind) -> Precedence {
    Precedence::token_precedence(&Token::new(kind, String::new()))
}

#[test]
fn table_maps_operators() {
    assert_eq!(level_of(TokenKind::Equal), Precedence::Equals);
    assert_eq!(level_of(TokenKind::NotEqual), Precedence::Equals);
    assert_eq!(level_of(TokenKind::Less), Precedence::LessGreater);
    assert_eq!(level_of(TokenKind::Greater), Precedence::LessGreater);
    assert_eq!(level_of(TokenKind::Plus), Precedence::Sum);
    assert_eq!(level_of(TokenKind::Minus), Precedence::Sum);
    assert_eq!(level_of(TokenKind::Star), Precedence::Product);
    assert_eq!(level_of(TokenKind::Slash), Precedence::Product);
    assert_eq!(level_of(TokenKind::LeftParen), Precedence::Call);
    assert_eq!(level_of(TokenKind::LeftBracket), Precedence::Index);
}

#[test]
fn table_defaults_to_lowest() {
    for kind in [
        TokenKind::Ident,
        TokenKind::Integer,
        TokenKind::Keyword,
        TokenKind::Eof,
        TokenKind::Illegal,
        TokenKind::Bang,
        TokenKind::Assign,
        TokenKind::RightParen,
        TokenKind::RightBracket,
        TokenKind::Comma,
        TokenKind::Semicolon,
    ] {
        assert_eq!(level_of(kind), Precedence::Lowest);
    }
}

#[test]
fn levels_are_ranked() {
    let order = [
        Precedence::Lowest,
        Precedence::Equals,
        Precedence::LessGreater,
        Precedence::Sum,
        Precedence::Product,
        Precedence::Prefix,
        Precedence::Call,
        Precedence::Index,
    ];
    for (i, p) in order.iter().enumerate() {
        assert_eq!(p.rank() as usize, i);
        for (j, q) in order.iter().enumerate() {
            assert_eq!(p < q, i < j);
            assert_eq!(p.binds_tighter_than(q), i > j);
        }
    }
    assert!(Precedence::Call > Precedence::Product);
    assert!(Precedence::Index > Precedence::Call);
}

#[test]
fn one_below_steps_down() {
    assert_eq!(Precedence::Lowest.one_below(), Precedence::Lowest);
    assert_eq!(Precedence::Equals.one_below(), Precedence::Lowest);
    assert_eq!(Precedence::Sum.one_below(), Precedence::LessGreater);
    assert_eq!(Precedence::Product.one_below(), Precedence::Sum);
    assert_eq!(Precedence::Index.one_below(), Precedence::Call);
}

#[test]
fn from_token_uses_table() {
    let t = Token::new(TokenKind::Star, "*".to_string());
    assert_eq!(Precedence::from(&t), Precedence::Product);
    assert_eq!(Precedence::of_kind(TokenKind::LeftParen), Precedence::Call);
}
