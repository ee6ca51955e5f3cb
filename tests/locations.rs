use rst::location::{Location, Locator, Source, SourceLocation, Span, SpanLocator, TextSource};

#[test]
fn location_after_characters() {
    let start = Location::default();
    let a = start.location_after('a');
    assert_eq!((a.row(), a.column(), a.character()), (0, 1, 1));
    let n = a.location_after('\n');
    assert_eq!((n.row(), n.column(), n.character()), (1, 0, 2));
    let t = n.location_after('\t');
    assert_eq!((t.row(), t.column(), t.character()), (1, 1, 3));
}

#[test]
fn span_operations() {
    let start = Location::default();
    let one = start.location_after('x');
    let span = start.span_to(&one);
    assert_eq!(*span.start(), start);
    assert_eq!(*span.end(), one);
    let grown = span.extended_span('y');
    assert_eq!(*grown.start(), start);
    assert_eq!(grown.end().character(), 2);
    let after = span.location_after('\n');
    assert_eq!(*after.start(), one);
    assert_eq!((after.end().row(), after.end().column()), (1, 0));
    assert_eq!(*span.location(), start);
    assert_eq!(Span::default().span_to(&one), span);
}

#[test]
fn display_forms() {
    let mut loc = Location::default();
    for _ in 0..12 {
        loc = loc.location_after('\n');
    }
    for _ in 0..345 {
        loc = loc.location_after('a');
    }
    assert_eq!(loc.to_string(), "12:345");
    let span = Location::default().span_to(&loc);
    assert_eq!(span.to_string(), "0:0..12:345");
    let source = TextSource::from_str("example", "text");
    let start = SourceLocation::source_start(&source);
    assert_eq!(start.to_string(), "example[0:0]");
    let qualified = start.span_to(&loc);
    assert_eq!(qualified.to_string(), "example[0:0..12:345]");
    let grown = qualified.extended_span('z');
    assert_eq!(grown.to_string(), "example[0:0..12:346]");
    assert_eq!(start.location_after('\n').to_string(), "example[1:0]");
}

#[test]
fn source_excerpts() {
    let source = TextSource::from_str("s", "h\u{e9}llo world");
    let start = SourceLocation::source_start(&source);
    let mut end = *start.location();
    for c in "h\u{e9}llo".chars() {
        end = end.location_after(c);
    }
    let span = start.span_to(&end);
    assert_eq!(span.excerpt(), Ok("h\u{e9}llo".to_string()));
    let mut far = end;
    for _ in 0..20 {
        far = far.location_after('a');
    }
    assert_eq!(source.excerpt(end.span_to(&far)), Err(rst::error::Error::ExcerptUnavailable));
}
