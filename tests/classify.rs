use rst::Token;

#[test]
fn bullets() {
    for t in [Token::Asterisk, Token::Plus, Token::Hyphen, Token::Bullet, Token::TriangularBullet, Token::HyphenBullet] {
        assert!(t.is_bullet());
    }
    for t in [Token::Period, Token::Newline, Token::Whitespace(' '), Token::Word("o".to_string())] {
        assert!(!t.is_bullet());
    }
}

#[test]
fn adornments() {
    for t in [
        Token::Exclamation, Token::DoubleQuote, Token::Hash, Token::Dollar, Token::Percent, Token::Ampersand,
        Token::SingleQuote, Token::OpenParen, Token::CloseParen, Token::Asterisk, Token::Plus, Token::Comma,
        Token::Hyphen, Token::Period, Token::ForwardSlash, Token::Colon, Token::SemiColon, Token::LessThan,
        Token::Equal, Token::GreaterThan, Token::Question, Token::At, Token::OpenBracket, Token::BackSlash,
        Token::CloseBracket, Token::Caret, Token::Underscore, Token::Backtick, Token::OpenBrace, Token::Pipe,
        Token::CloseBrace, Token::Tilde,
    ] {
        assert!(t.is_adornment(), "{:?}", t);
    }
    for t in [Token::Newline, Token::Whitespace(' '), Token::Whitespace('!'), Token::Bullet, Token::Word("=".to_string())] {
        assert!(!t.is_adornment(), "{:?}", t);
    }
}

#[test]
fn closing_brackets() {
    assert!(Token::CloseParen.closes(&Token::OpenParen));
    assert!(Token::CloseBracket.closes(&Token::OpenBracket));
    assert!(Token::CloseBrace.closes(&Token::OpenBrace));
    assert!(!Token::CloseParen.closes(&Token::OpenBracket));
    assert!(!Token::CloseBrace.closes(&Token::OpenParen));
    assert!(!Token::OpenParen.closes(&Token::CloseParen));
    assert!(!Token::Pipe.closes(&Token::Pipe));
}

#[test]
fn reference_members() {
    for t in [Token::Word("a".to_string()), Token::Hyphen, Token::Underscore, Token::Period, Token::Colon, Token::Plus] {
        assert!(t.reference_member());
    }
    for t in [Token::Asterisk, Token::Whitespace(' '), Token::Newline, Token::At] {
        assert!(!t.reference_member());
    }
}

#[test]
fn characters_classified() {
    assert_eq!(Token::parse_char('\n'), Some(Token::Newline));
    assert_eq!(Token::parse_char('\t'), Some(Token::Whitespace('\t')));
    assert_eq!(Token::parse_char('\r'), Some(Token::Whitespace('\r')));
    assert_eq!(Token::parse_char('\u{a0}'), Some(Token::Whitespace('\u{a0}')));
    assert_eq!(Token::parse_char('\u{2022}'), Some(Token::Bullet));
    assert_eq!(Token::parse_char('\u{2023}'), Some(Token::TriangularBullet));
    assert_eq!(Token::parse_char('\u{2043}'), Some(Token::HyphenBullet));
    assert_eq!(Token::parse_char('\\'), Some(Token::BackSlash));
    assert_eq!(Token::parse_char('`'), Some(Token::Backtick));
    assert_eq!(Token::parse_char('a'), None);
    assert_eq!(Token::parse_char('7'), None);
    assert_eq!(Token::parse_char('\u{200b}'), None);
}

#[test]
fn white_space_matches_std() {
    for c in (0u32..0x3100).filter_map(char::from_u32) {
        assert_eq!(rst::tokens::white_space(c), c.is_whitespace(), "{:?}", c);
    }
}
