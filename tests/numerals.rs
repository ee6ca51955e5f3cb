use rst::Token;

fn word(s: &str) -> Token {
    Token::Word(s.to_string())
}

#[test]
fn roman_numeral_decode() {
    assert_eq!(word("XIV").from_roman_numeral(), Some(14));
    assert_eq!(word("IIII").from_roman_numeral(), None);
    assert_eq!(word("mcmxcix").from_roman_numeral(), Some(1999));
    assert_eq!(word("McM").from_roman_numeral(), None);
}

#[test]
fn roman_numeral_edge_cases() {
    assert_eq!(word("III").from_roman_numeral(), Some(3));
    assert_eq!(word("IX").from_roman_numeral(), Some(9));
    assert_eq!(word("IIX").from_roman_numeral(), None);
    assert_eq!(word("IVI").from_roman_numeral(), None);
    assert_eq!(word("MMMM").from_roman_numeral(), Some(4000));
    assert_eq!(word("MMMMCMXCIX").from_roman_numeral(), Some(4999));
    assert_eq!(word("MMMMM").from_roman_numeral(), None);
    assert_eq!(word("MMMCM").from_roman_numeral(), Some(3900));
    assert_eq!(word("MMMMMMMM").from_roman_numeral(), None);
    assert_eq!(word("XCXC").from_roman_numeral(), None);
    assert_eq!(word("").from_roman_numeral(), None);
    assert_eq!(word("XIQ").from_roman_numeral(), None);
    assert_eq!(word("xiv").from_roman_numeral(), Some(14));
    assert_eq!(Token::Hyphen.from_roman_numeral(), None);
}

#[test]
fn latin_numeral_decode() {
    assert_eq!(word("C").from_latin_numeral(), Some(3));
    assert_eq!(word("C").from_roman_numeral(), Some(100));
    assert_eq!(word("C").from_numeral(), Some(3));
}

#[test]
fn latin_numeral_edge_cases() {
    assert_eq!(word("a").from_latin_numeral(), Some(1));
    assert_eq!(word("z").from_latin_numeral(), Some(26));
    assert_eq!(word("Z").from_latin_numeral(), Some(26));
    assert_eq!(word("ab").from_latin_numeral(), None);
    assert_eq!(word("\u{e9}").from_latin_numeral(), None);
    assert_eq!(word("7").from_latin_numeral(), None);
    assert_eq!(Token::Period.from_latin_numeral(), None);
}

#[test]
fn arabic_numeral_decode() {
    assert_eq!(word("42").from_arabic_numeral(), Some(42));
    assert_eq!(word("007").from_arabic_numeral(), Some(7));
    assert_eq!(word("+5").from_arabic_numeral(), Some(5));
    assert_eq!(word("0").from_arabic_numeral(), None);
    assert_eq!(word("").from_arabic_numeral(), None);
    assert_eq!(word("+").from_arabic_numeral(), None);
    assert_eq!(word("-5").from_arabic_numeral(), None);
    assert_eq!(word("12a").from_arabic_numeral(), None);
    assert_eq!(word("18446744073709551615").from_arabic_numeral(), Some(u64::MAX));
    assert_eq!(word("18446744073709551616").from_arabic_numeral(), None);
    assert_eq!(word("99999999999999999999x").from_arabic_numeral(), None);
    assert_eq!(Token::Newline.from_arabic_numeral(), None);
}

#[test]
fn numeral_precedence() {
    assert_eq!(word("12").from_numeral(), Some(12));
    assert_eq!(word("x").from_numeral(), Some(24));
    assert_eq!(word("XII").from_numeral(), Some(12));
    assert_eq!(word("iv").from_numeral(), Some(4));
    assert_eq!(word("0").from_numeral(), None);
    assert_eq!(word("word").from_numeral(), None);
    assert_eq!(Token::Asterisk.from_numeral(), None);
}
