//! The tokens of reStructuredText.
//!
//! Characters are classified one at a time: whitespace, punctuation, brackets and
//! bullets each form a token of their own, and every maximal run of the remaining
//! characters becomes a single `Word`.
use vstd::prelude::*;

pub use crate::stream::{Chars, TokenStream};

verus! {

/// A single token from the input stream.
#[derive(Debug, Clone, PartialEq, Eq)]
pub enum Token {
    // Whitespace
    Newline,
    Whitespace(char),
    // Bullets
    Bullet,
    HyphenBullet,
    TriangularBullet,
    // Punctuation; any of it can be used for adornment.
    Ampersand,
    Asterisk,
    At,
    BackSlash,
    Backtick,
    Caret,
    Colon,
    Comma,
    Dollar,
    DoubleQuote,
    Equal,
    Exclamation,
    ForwardSlash,
    GreaterThan,
    Hash,
    Hyphen,
    LessThan,
    Percent,
    Period,
    Pipe,
    Plus,
    Question,
    SemiColon,
    SingleQuote,
    Tilde,
    Underscore,
    // Parentheses
    OpenParen,
    CloseParen,
    // Square brackets
    OpenBracket,
    CloseBracket,
    // Curly braces
    OpenBrace,
    CloseBrace,
    /// A continuous run of characters that are neither whitespace nor punctuation.
    Word(String),
}

/// The characters with the Unicode `White_Space` property.
pub open spec fn is_white_space(c: char) -> bool {
    let u = c as u32;
    ||| 0x9 <= u <= 0xd
    ||| u == 0x20
    ||| u == 0x85
    ||| u == 0xa0
    ||| u == 0x1680
    ||| 0x2000 <= u <= 0x200a
    ||| u == 0x2028
    ||| u == 0x2029
    ||| u == 0x202f
    ||| u == 0x205f
    ||| u == 0x3000
}

/// Whether `c` has the Unicode `White_Space` property.
pub fn white_space(c: char) -> (r: bool)
    ensures
        r == is_white_space(c),
{
    let u = c as u32;
    (0x9 <= u && u <= 0xd) || u == 0x20 || u == 0x85 || u == 0xa0 || u == 0x1680 || (0x2000 <= u
        && u <= 0x200a) || u == 0x2028 || u == 0x2029 || u == 0x202f || u == 0x205f || u == 0x3000
}

/// The token that the character `c` forms on its own, or `None` where `c` belongs
/// to a word.
pub open spec fn char_token(c: char) -> Option<Token> {
    if c == '\n' {
        Some(Token::Newline)
    } else if is_white_space(c) {
        Some(Token::Whitespace(c))
    } else {
        match c {
            '\u{2022}' => Some(Token::Bullet),
            '\u{2023}' => Some(Token::TriangularBullet),
            '\u{2043}' => Some(Token::HyphenBullet),
            '!' => Some(Token::Exclamation),
            '"' => Some(Token::DoubleQuote),
            '\'' => Some(Token::SingleQuote),
            '#' => Some(Token::Hash),
            '$' => Some(Token::Dollar),
            '%' => Some(Token::Percent),
            '&' => Some(Token::Ampersand),
            '*' => Some(Token::Asterisk),
            '+' => Some(Token::Plus),
            ',' => Some(Token::Comma),
            '-' => Some(Token::Hyphen),
            '.' => Some(Token::Period),
            '/' => Some(Token::ForwardSlash),
            ':' => Some(Token::Colon),
            ';' => Some(Token::SemiColon),
            '<' => Some(Token::LessThan),
            '=' => Some(Token::Equal),
            '>' => Some(Token::GreaterThan),
            '?' => Some(Token::Question),
            '@' => Some(Token::At),
            '\\' => Some(Token::BackSlash),
            '^' => Some(Token::Caret),
            '_' => Some(Token::Underscore),
            '`' => Some(Token::Backtick),
            '|' => Some(Token::Pipe),
            '~' => Some(Token::Tilde),
            '(' => Some(Token::OpenParen),
            ')' => Some(Token::CloseParen),
            '[' => Some(Token::OpenBracket),
            ']' => Some(Token::CloseBracket),
            '{' => Some(Token::OpenBrace),
            '}' => Some(Token::CloseBrace),
            _ => None,
        }
    }
}

/// The character that a token other than a word stands for.
pub open spec fn token_char(t: Token) -> Option<char> {
    match t {
        Token::Newline => Some('\n'),
        Token::Whitespace(c) => Some(c),
        Token::Bullet => Some('\u{2022}'),
        Token::TriangularBullet => Some('\u{2023}'),
        Token::HyphenBullet => Some('\u{2043}'),
        Token::Ampersand => Some('&'),
        Token::Asterisk => Some('*'),
        Token::At => Some('@'),
        Token::BackSlash => Some('\\'),
        Token::Backtick => Some('`'),
        Token::Caret => Some('^'),
        Token::Colon => Some(':'),
        Token::Comma => Some(','),
        Token::Dollar => Some('$'),
        Token::DoubleQuote => Some('"'),
        Token::Equal => Some('='),
        Token::Exclamation => Some('!'),
        Token::ForwardSlash => Some('/'),
        Token::GreaterThan => Some('>'),
        Token::Hash => Some('#'),
        Token::Hyphen => Some('-'),
        Token::LessThan => Some('<'),
        Token::Percent => Some('%'),
        Token::Period => Some('.'),
        Token::Pipe => Some('|'),
        Token::Plus => Some('+'),
        Token::Question => Some('?'),
        Token::SemiColon => Some(';'),
        Token::SingleQuote => Some('\''),
        Token::Tilde => Some('~'),
        Token::Underscore => Some('_'),
        Token::OpenParen => Some('('),
        Token::CloseParen => Some(')'),
        Token::OpenBracket => Some('['),
        Token::CloseBracket => Some(']'),
        Token::OpenBrace => Some('{'),
        Token::CloseBrace => Some('}'),
        Token::Word(_) => None,
    }
}

/// The ASCII punctuation characters, all of which may be used for adornment:
/// `! " # $ % & ' ( ) * + , - . / : ; < = > ? @ [ \ ] ^ _ ` { | } ~`.
pub open spec fn is_adornment_char(c: char) -> bool {
    let u = c as u32;
    ||| 0x21 <= u <= 0x2f
    ||| 0x3a <= u <= 0x40
    ||| 0x5b <= u <= 0x60
    ||| 0x7b <= u <= 0x7e
}

/// A punctuation token, standing for one of the adornment characters.
pub open spec fn is_adornment_token(t: Token) -> bool {
    &&& !(t is Whitespace)
    &&& token_char(t) matches Some(c) && is_adornment_char(c)
}

impl Token {
    /// The token that `c` forms on its own, or `None` where it belongs to a word.
    pub fn parse_char(c: char) -> (r: Option<Token>)
        ensures
            r == char_token(c),
    {
        if c == '\n' {
            return Some(Token::Newline);
        }
        if white_space(c) {
            return Some(Token::Whitespace(c));
        }
        let t = match c {
            '\u{2022}' => Token::Bullet,
            '\u{2023}' => Token::TriangularBullet,
            '\u{2043}' => Token::HyphenBullet,
            '!' => Token::Exclamation,
            '"' => Token::DoubleQuote,
            '\'' => Token::SingleQuote,
            '#' => Token::Hash,
            '$' => Token::Dollar,
            '%' => Token::Percent,
            '&' => Token::Ampersand,
            '*' => Token::Asterisk,
            '+' => Token::Plus,
            ',' => Token::Comma,
            '-' => Token::Hyphen,
            '.' => Token::Period,
            '/' => Token::ForwardSlash,
            ':' => Token::Colon,
            ';' => Token::SemiColon,
            '<' => Token::LessThan,
            '=' => Token::Equal,
            '>' => Token::GreaterThan,
            '?' => Token::Question,
            '@' => Token::At,
            '\\' => Token::BackSlash,
            '^' => Token::Caret,
            '_' => Token::Underscore,
            '`' => Token::Backtick,
            '|' => Token::Pipe,
            '~' => Token::Tilde,
            '(' => Token::OpenParen,
            ')' => Token::CloseParen,
            '[' => Token::OpenBracket,
            ']' => Token::CloseBracket,
            '{' => Token::OpenBrace,
            '}' => Token::CloseBrace,
            _ => return None,
        };
        Some(t)
    }

    /// The token could represent a bullet.
    pub fn is_bullet(&self) -> (r: bool)
        ensures
            r == (*self is Asterisk || *self is Plus || *self is Hyphen || *self is Bullet
                || *self is TriangularBullet || *self is HyphenBullet),
    {
        match self {
            Token::Asterisk | Token::Plus | Token::Hyphen => true,
            Token::Bullet | Token::TriangularBullet | Token::HyphenBullet => true,
            _ => false,
        }
    }

    /// The token could be an adornment: it is punctuation, standing for one of the
    /// ASCII punctuation characters. Whitespace, newlines and words never are.
    pub fn is_adornment(&self) -> (r: bool)
        ensures
            r == is_adornment_token(*self),
    {
        match self {
            Token::Ampersand => true,
            Token::Asterisk => true,
            Token::At => true,
            Token::BackSlash => true,
            Token::Backtick => true,
            Token::Caret => true,
            Token::CloseBrace => true,
            Token::CloseBracket => true,
            Token::CloseParen => true,
            Token::Colon => true,
            Token::Comma => true,
            Token::Dollar => true,
            Token::DoubleQuote => true,
            Token::Equal => true,
            Token::Exclamation => true,
            Token::ForwardSlash => true,
            Token::GreaterThan => true,
            Token::Hash => true,
            Token::Hyphen => true,
            Token::LessThan => true,
            Token::OpenBrace => true,
            Token::OpenBracket => true,
            Token::OpenParen => true,
            Token::Percent => true,
            Token::Period => true,
            Token::Pipe => true,
            Token::Plus => true,
            Token::Question => true,
            Token::SemiColon => true,
            Token::SingleQuote => true,
            Token::Tilde => true,
            Token::Underscore => true,
            _ => false,
        }
    }

    /// If the token is a matching brace for another character.
    pub fn closes(&self, open: &Token) -> (r: bool)
        ensures
            r == ((*open is OpenParen && *self is CloseParen) || (*open is OpenBracket
                && *self is CloseBracket) || (*open is OpenBrace && *self is CloseBrace)),
    {
        match (open, self) {
            (Token::OpenParen, Token::CloseParen) => true,
            (Token::OpenBracket, Token::CloseBracket) => true,
            (Token::OpenBrace, Token::CloseBrace) => true,
            _ => false,
        }
    }

    /// If the token could be part of a reference.
    pub fn reference_member(&self) -> (r: bool)
        ensures
            r == (*self is Word || *self is Hyphen || *self is Underscore || *self is Period
                || *self is Colon || *self is Plus),
    {
        match self {
            Token::Word(_) => true,
            Token::Hyphen => true,
            Token::Underscore => true,
            Token::Period => true,
            Token::Colon => true,
            Token::Plus => true,
            _ => false,
        }
    }
}

} // verus!
