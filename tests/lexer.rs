use rst::error::Error;
use rst::location::{CharStream, Next, ReaderSource, Source, SourceSpan, TextSource};
use rst::{Token, TokenStream};

type Item = (Token, (u64, u64, u64), (u64, u64, u64));

fn position(span: &SourceSpan<'_, impl Source>) -> ((u64, u64, u64), (u64, u64, u64)) {
    let s = span.span();
    (
        (s.start().row(), s.start().column(), s.start().character()),
        (s.end().row(), s.end().column(), s.end().character()),
    )
}

fn lex_text(text: &str) -> Vec<Item> {
    let mut source = TextSource::from_str("test", text);
    let mut stream = TokenStream::try_new(&mut source).unwrap();
    let mut out = Vec::new();
    loop {
        match stream.next() {
            Next::Item(Ok((token, span))) => {
                let (start, end) = position(&span);
                out.push((token, start, end));
            }
            Next::Item(Err(e)) => panic!("unexpected error {:?}", e),
            Next::NeedInput => panic!("a text source never needs input"),
            Next::End => break,
        }
    }
    out
}

use rst::location::SpanLocator;

#[test]
fn word_coalescing() {
    let tokens = lex_text("abc123");
    assert_eq!(tokens.len(), 1);
    assert_eq!(tokens[0], (Token::Word("abc123".to_string()), (0, 0, 0), (0, 6, 6)));
}

#[test]
fn punctuation_splitting() {
    let tokens = lex_text("a-b");
    assert_eq!(
        tokens,
        vec![
            (Token::Word("a".to_string()), (0, 0, 0), (0, 1, 1)),
            (Token::Hyphen, (0, 1, 1), (0, 2, 2)),
            (Token::Word("b".to_string()), (0, 2, 2), (0, 3, 3)),
        ]
    );
}

#[test]
fn newline_handling() {
    let tokens = lex_text("ab\ncd");
    assert_eq!(
        tokens,
        vec![
            (Token::Word("ab".to_string()), (0, 0, 0), (0, 2, 2)),
            (Token::Newline, (0, 2, 2), (1, 0, 3)),
            (Token::Word("cd".to_string()), (1, 0, 3), (1, 2, 5)),
        ]
    );
}

#[test]
fn empty_text_has_no_tokens() {
    assert_eq!(lex_text(""), vec![]);
}

#[test]
fn spans_partition_the_text() {
    let text = "An example: 'this' has (special) chars\n\t\u{2022} done\u{2026}";
    let mut source = TextSource::from_str("example", text);
    let mut stream = TokenStream::try_new(&mut source).unwrap();
    let mut joined = String::new();
    let mut previous_end = (0, 0, 0);
    let mut count = 0;
    while let Next::Item(Ok((_, span))) = stream.next() {
        let (start, end) = position(&span);
        assert_eq!(start, previous_end);
        previous_end = end;
        joined.push_str(&span.excerpt().unwrap());
        count += 1;
    }
    assert_eq!(joined, text);
    assert_eq!(previous_end.2, text.chars().count() as u64);
    assert_eq!(count, 21);
}

#[test]
fn mixed_input_token_kinds() {
    let tokens: Vec<Token> = lex_text("x (y)\u{2022}\u{2023}\u{2043} \u{3000}").into_iter().map(|t| t.0).collect();
    assert_eq!(
        tokens,
        vec![
            Token::Word("x".to_string()),
            Token::Whitespace(' '),
            Token::OpenParen,
            Token::Word("y".to_string()),
            Token::CloseParen,
            Token::Bullet,
            Token::TriangularBullet,
            Token::HyphenBullet,
            Token::Whitespace(' '),
            Token::Whitespace('\u{3000}'),
        ]
    );
}

#[test]
fn word_ends_at_end_of_text_after_punctuation() {
    let tokens: Vec<Token> = lex_text("..\u{e9}2").into_iter().map(|t| t.0).collect();
    assert_eq!(tokens, vec![Token::Period, Token::Period, Token::Word("\u{e9}2".to_string())]);
}

#[test]
fn exhaustion_idempotence() {
    let mut source = TextSource::from_str("test", "a b");
    let mut stream = TokenStream::try_new(&mut source).unwrap();
    let mut count = 0;
    while let Next::Item(_) = stream.next() {
        count += 1;
    }
    assert_eq!(count, 3);
    for _ in 0..5 {
        assert!(matches!(stream.next(), Next::End));
    }
}

#[test]
fn restart_independence() {
    let text = "Title\n=====\n\n* item one\n* item (two)";
    let first = lex_text(text);
    let second = lex_text(text);
    assert_eq!(first, second);
    assert!(!first.is_empty());
}

#[test]
fn source_opens_once() {
    let mut source = TextSource::from_str("once", "abc");
    {
        let stream = TokenStream::try_new(&mut source);
        assert!(stream.is_ok());
    }
    match TokenStream::try_new(&mut source) {
        Err(e) => assert_eq!(e, Error::SourceConsumed("once".to_string())),
        Ok(_) => panic!("the source was already consumed"),
    }
}

#[test]
fn text_excerpt() {
    let source = TextSource::from_str("test", "hello world");
    let mut stream_source = TextSource::from_str("test", "hello world");
    let mut stream = TokenStream::try_new(&mut stream_source).unwrap();
    let first = match stream.next() {
        Next::Item(Ok((_, span))) => span,
        _ => panic!("expected a token"),
    };
    assert_eq!(first.excerpt(), Ok("hello".to_string()));
    assert_eq!(source.excerpt(*first.span()), Ok("hello".to_string()));
}

#[test]
fn reader_source_is_fed_lines() {
    let mut source = ReaderSource::from_reader("stdin");
    let mut stream = TokenStream::try_new(&mut source).unwrap();
    let mut lines = vec!["ab-c\n".to_string(), "d\n".to_string(), String::new()].into_iter();
    let mut tokens = Vec::new();
    loop {
        match stream.next() {
            Next::Item(Ok((token, span))) => {
                assert_eq!(span.excerpt(), Err(Error::ExcerptUnavailable));
                tokens.push((token, position(&span)));
            }
            Next::Item(Err(e)) => panic!("unexpected error {:?}", e),
            Next::NeedInput => stream.supply(Ok(lines.next().unwrap())),
            Next::End => break,
        }
    }
    assert_eq!(
        tokens,
        vec![
            (Token::Word("ab".to_string()), ((0, 0, 0), (0, 2, 2))),
            (Token::Hyphen, ((0, 2, 2), (0, 3, 3))),
            (Token::Word("c".to_string()), ((0, 3, 3), (0, 4, 4))),
            (Token::Newline, ((0, 4, 4), (1, 0, 5))),
            (Token::Word("d".to_string()), ((1, 0, 5), (1, 1, 6))),
            (Token::Newline, ((1, 1, 6), (2, 0, 7))),
        ]
    );
    assert!(matches!(stream.next(), Next::End));
}

#[test]
fn read_failure_flushes_held_word_first() {
    let mut source = ReaderSource::from_reader("stdin");
    let mut stream = TokenStream::try_new(&mut source).unwrap();
    assert!(matches!(stream.next(), Next::NeedInput));
    stream.supply(Ok("word".to_string()));
    assert!(matches!(stream.next(), Next::NeedInput));
    stream.supply(Err(Error::Io("broken pipe".to_string())));
    match stream.next() {
        Next::Item(Ok((token, _))) => assert_eq!(token, Token::Word("word".to_string())),
        _ => panic!("expected the held-back word"),
    }
    match stream.next() {
        Next::Item(Err(e)) => assert_eq!(e, Error::Io("broken pipe".to_string())),
        _ => panic!("expected the read failure"),
    }
    assert!(matches!(stream.next(), Next::End));
    assert!(matches!(stream.next(), Next::End));
}

#[test]
fn read_failure_without_held_token() {
    let mut source = ReaderSource::from_reader("stdin");
    let mut stream = TokenStream::try_new(&mut source).unwrap();
    stream.supply(Ok("-".to_string()));
    assert!(matches!(stream.next(), Next::Item(Ok((Token::Hyphen, _)))));
    assert!(matches!(stream.next(), Next::NeedInput));
    stream.supply(Err(Error::Io("gone".to_string())));
    assert!(matches!(stream.next(), Next::Item(Err(Error::Io(_)))));
    assert!(matches!(stream.next(), Next::End));
}

#[test]
fn reader_source_opens_once() {
    let mut source = ReaderSource::from_reader("stdin");
    assert!(source.chars().is_some());
    assert!(source.chars().is_none());
    assert_eq!(source.name(), "stdin".to_string());
}

#[test]
fn supplied_lines_queue_behind_unread_input() {
    let mut source = ReaderSource::from_reader("stdin");
    let mut stream = TokenStream::try_new(&mut source).unwrap();
    stream.supply(Ok("a b".to_string()));
    stream.supply(Ok("c\n".to_string()));
    stream.supply(Ok(String::new()));
    stream.supply(Ok("ignored".to_string()));
    let mut tokens = Vec::new();
    loop {
        match stream.next() {
            Next::Item(Ok((token, span))) => tokens.push((token, position(&span))),
            Next::Item(Err(e)) => panic!("unexpected error {:?}", e),
            Next::NeedInput => panic!("all input was handed in"),
            Next::End => break,
        }
    }
    assert_eq!(
        tokens,
        vec![
            (Token::Word("a".to_string()), ((0, 0, 0), (0, 1, 1))),
            (Token::Whitespace(' '), ((0, 1, 1), (0, 2, 2))),
            (Token::Word("bc".to_string()), ((0, 2, 2), (0, 4, 4))),
            (Token::Newline, ((0, 4, 4), (1, 0, 5))),
        ]
    );
}

#[test]
fn reader_chars_pull_line_in_order() {
    let mut source = ReaderSource::from_reader("stdin");
    let mut chars = source.chars().unwrap();
    assert!(matches!(chars.next(), Next::NeedInput));
    chars.supply(Ok("xy".to_string()));
    assert_eq!(chars.next(), Next::Item(Ok('x')));
    assert_eq!(chars.next(), Next::Item(Ok('y')));
    assert!(matches!(chars.next(), Next::NeedInput));
    chars.supply(Ok(String::new()));
    assert!(matches!(chars.next(), Next::End));
    assert!(matches!(chars.next(), Next::End));
}
