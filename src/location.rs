//! Metadata for source location information.
//!
//! A `Location` is a single point in a stream of characters and a `Span` is the
//! half-open stretch between two of them. The source-qualified forms carry a shared
//! reference to the source that the position belongs to.
use vstd::prelude::*;

use crate::error::Error;
pub use crate::source::{CharStream, Next, ReaderChars, ReaderSource, Source, TextChars, TextSource};

verus! {

/// A location within a stream of text.
///
/// `row` and `column` count from zero; `character` is the number of characters
/// consumed before this point.
#[derive(Debug, Clone, Copy, PartialEq, Eq, Structural)]
pub struct Location {
    pub(crate) row: u64,
    pub(crate) column: u64,
    pub(crate) character: u64,
}

/// The location before any character has been consumed.
pub open(crate) spec fn origin() -> Location {
    Location { row: 0, column: 0, character: 0 }
}

/// The location reached after consuming every character of `text` from the origin.
pub open(crate) spec fn location_of(text: Seq<char>) -> Location
    decreases text.len(),
{
    if text.len() == 0 {
        origin()
    } else {
        location_of(text.drop_last()).after(text.last())
    }
}

impl Location {
    pub open(crate) spec fn spec_row(&self) -> u64 {
        self.row
    }

    pub open(crate) spec fn spec_column(&self) -> u64 {
        self.column
    }

    pub open(crate) spec fn spec_character(&self) -> u64 {
        self.character
    }

    /// Each counter can still be incremented.
    pub open(crate) spec fn has_room(&self) -> bool {
        &&& self.row < u64::MAX
        &&& self.column < u64::MAX
        &&& self.character < u64::MAX
    }

    /// The location that follows this one once `next` has been consumed: a newline
    /// moves to the start of the next row, any other character one column on.
    pub open(crate) spec fn after(self, next: char) -> Location {
        if next == '\n' {
            Location { row: (self.row + 1) as u64, column: 0, character: (self.character + 1) as u64 }
        } else {
            Location {
                row: self.row,
                column: (self.column + 1) as u64,
                character: (self.character + 1) as u64,
            }
        }
    }

    pub fn row(&self) -> (r: u64)
        ensures
            r == self.spec_row(),
    {
        self.row
    }

    pub fn column(&self) -> (r: u64)
        ensures
            r == self.spec_column(),
    {
        self.column
    }

    pub fn character(&self) -> (r: u64)
        ensures
            r == self.spec_character(),
    {
        self.character
    }

    /// Whether another character can be consumed from this location without any
    /// counter overflowing.
    pub fn can_advance(&self) -> (r: bool)
        ensures
            r == self.has_room(),
    {
        self.row < u64::MAX && self.column < u64::MAX && self.character < u64::MAX
    }

    /// The location as `row:column`.
    pub fn to_string(&self) -> (r: String)
        ensures
            r@ == location_text(*self),
    {
        let mut text = decimal_string(self.row);
        text.append(":");
        proof {
            reveal_strlit(":");
        }
        text.append(decimal_string(self.column).as_str());
        text
    }
}

impl Default for Location {
    fn default() -> (r: Self)
        ensures
            r == origin(),
    {
        Location { row: 0, column: 0, character: 0 }
    }
}

/// The decimal digit for `d`, which is below ten.
pub open(crate) spec fn digit(d: nat) -> char {
    if d == 0 { '0' }
    else if d == 1 { '1' }
    else if d == 2 { '2' }
    else if d == 3 { '3' }
    else if d == 4 { '4' }
    else if d == 5 { '5' }
    else if d == 6 { '6' }
    else if d == 7 { '7' }
    else if d == 8 { '8' }
    else { '9' }
}

/// The decimal notation of `n`, without leading zeros.
pub open(crate) spec fn decimal(n: nat) -> Seq<char>
    decreases n,
{
    if n < 10 {
        seq![digit(n)]
    } else {
        decimal(n / 10).push(digit(n % 10))
    }
}

/// Relies on `u64`'s `Display`, through `ToString`: the decimal notation of the
/// number, without sign or leading zeros.
#[verifier::external_body]
fn decimal_string(n: u64) -> (r: String)
    ensures
        r@ == decimal(n as nat),
{
    n.to_string()
}

/// Locate a single position within the input.
pub trait Locator: Sized {
    /// The type of span produced when creating a region.
    type Span;

    /// The position that `location_after` moves on from can be advanced.
    spec fn can_move(&self) -> bool;

    /// Get the current location.
    fn location(&self) -> (r: &Location);

    /// Get the subsequent location after seeing a particular character.
    fn location_after(&self, next: char) -> (r: Self)
        requires
            self.can_move(),
    ;

    /// Create a span up to a given location.
    fn span_to(&self, end: &Location) -> (r: Self::Span);
}

/// Locate a span within the input.
pub trait SpanLocator: Locator {
    /// Get the region in the file.
    fn span(&self) -> (r: &Span);

    /// Extend the location to include the given character.
    fn extended_span(&self, next: char) -> (r: Self)
        requires
            self.can_move(),
    ;
}

impl Locator for Location {
    type Span = Span;

    open spec fn can_move(&self) -> bool {
        self.has_room()
    }

    fn location(&self) -> (r: &Location)
        ensures
            *r == *self,
    {
        self
    }

    fn location_after(&self, next: char) -> (r: Self)
        ensures
            r == self.after(next),
    {
        let (row, column) = if next == '\n' {
            (self.row + 1, 0)
        } else {
            (self.row, self.column + 1)
        };
        let character = self.character + 1;
        Location { row, column, character }
    }

    fn span_to(&self, end: &Location) -> (r: Span)
        ensures
            r == span_between(*self, *end),
    {
        Span { start: *self, end: *end }
    }
}

/// A span between two locations within a stream of text.
///
/// Inclusive of the start and non-inclusive of the end.
#[derive(Debug, Clone, Copy, PartialEq, Eq, Structural)]
pub struct Span {
    pub(crate) start: Location,
    pub(crate) end: Location,
}

impl Span {
    pub open(crate) spec fn spec_start(&self) -> Location {
        self.start
    }

    pub open(crate) spec fn spec_end(&self) -> Location {
        self.end
    }

    pub fn start(&self) -> (r: &Location)
        ensures
            *r == self.spec_start(),
    {
        &self.start
    }

    pub fn end(&self) -> (r: &Location)
        ensures
            *r == self.spec_end(),
    {
        &self.end
    }

    /// The span as `start..end`, each written `row:column`.
    pub fn to_string(&self) -> (r: String)
        ensures
            r@ == span_text(*self),
    {
        let mut text = self.start.to_string();
        text.append("..");
        proof {
            reveal_strlit("..");
        }
        text.append(self.end.to_string().as_str());
        text
    }
}

/// The span from `start` up to, and not including, `end`.
pub open(crate) spec fn span_between(start: Location, end: Location) -> Span {
    Span { start, end }
}

/// How a location is written: `row:column`.
pub open(crate) spec fn location_text(l: Location) -> Seq<char> {
    decimal(l.row as nat) + seq![':'] + decimal(l.column as nat)
}

/// How a span is written: `start..end`.
pub open(crate) spec fn span_text(s: Span) -> Seq<char> {
    location_text(s.start) + seq!['.', '.'] + location_text(s.end)
}

impl Default for Span {
    fn default() -> (r: Self)
        ensures
            r == span_between(origin(), origin()),
    {
        Span { start: Location::default(), end: Location::default() }
    }
}

impl Locator for Span {
    type Span = Span;

    open spec fn can_move(&self) -> bool {
        self.spec_end().has_room()
    }

    fn location(&self) -> (r: &Location)
        ensures
            *r == self.spec_start(),
    {
        &self.start
    }

    fn location_after(&self, next: char) -> (r: Self)
        ensures
            r == span_between(self.spec_end(), self.spec_end().after(next)),
    {
        Span { start: self.end, end: self.end.location_after(next) }
    }

    fn span_to(&self, end: &Location) -> (r: Span)
        ensures
            r == span_between(self.spec_start(), *end),
    {
        Span { start: self.start, end: *end }
    }
}

impl SpanLocator for Span {
    fn span(&self) -> (r: &Span)
        ensures
            *r == *self,
    {
        self
    }

    fn extended_span(&self, next: char) -> (r: Self)
        ensures
            r == span_between(self.spec_start(), self.spec_end().after(next)),
    {
        Span { start: self.start, end: self.end.location_after(next) }
    }
}

/// A location within a particular source file.
#[derive(Debug)]
pub struct SourceLocation<'s, S> {
    pub(crate) source: &'s S,
    pub(crate) location: Location,
}

impl<'s, S> SourceLocation<'s, S> {
    pub open(crate) spec fn spec_source(&self) -> S {
        *self.source
    }

    pub open(crate) spec fn spec_location(&self) -> Location {
        self.location
    }
}

impl<'s, S: Source> SourceLocation<'s, S> {
    /// The start of `source`: row, column and character all zero.
    pub fn source_start(source: &'s S) -> (r: Self)
        ensures
            r.spec_location() == origin(),
            r.spec_source() == *source,
    {
        SourceLocation { source, location: Location::default() }
    }

    /// The location as `name[row:column]`.
    pub fn to_string(&self) -> (r: String)
        ensures
            r@ == qualified_text(self.spec_source().spec_name(), location_text(self.spec_location())),
    {
        let text = self.location.to_string();
        qualified(self.source.name(), text.as_str())
    }
}

/// How a position qualified by the name of its source is written: `name[inner]`.
pub open(crate) spec fn qualified_text(name: Seq<char>, inner: Seq<char>) -> Seq<char> {
    name + seq!['['] + inner + seq![']']
}

fn qualified(name: String, inner: &str) -> (r: String)
    ensures
        r@ == qualified_text(name@, inner@),
{
    let mut text = name;
    proof {
        reveal_strlit("[");
        reveal_strlit("]");
    }
    text.append("[");
    text.append(inner);
    text.append("]");
    text
}

impl<'s, S> Clone for SourceLocation<'s, S> {
    fn clone(&self) -> (r: Self)
        ensures
            r == *self,
    {
        SourceLocation { source: self.source, location: self.location }
    }
}

impl<'s, S> Locator for SourceLocation<'s, S> {
    type Span = SourceSpan<'s, S>;

    open spec fn can_move(&self) -> bool {
        self.spec_location().has_room()
    }

    fn location(&self) -> (r: &Location)
        ensures
            *r == self.spec_location(),
    {
        &self.location
    }

    fn location_after(&self, next: char) -> (r: Self)
        ensures
            r.spec_source() == self.spec_source(),
            r.spec_location() == self.spec_location().after(next),
    {
        SourceLocation { source: self.source, location: self.location.location_after(next) }
    }

    fn span_to(&self, end: &Location) -> (r: SourceSpan<'s, S>)
        ensures
            r.spec_source() == self.spec_source(),
            r.spec_span() == span_between(self.spec_location(), *end),
    {
        SourceSpan { source: self.source, span: self.location.span_to(end) }
    }
}

/// A span within a particular source file.
#[derive(Debug)]
pub struct SourceSpan<'s, S> {
    pub(crate) source: &'s S,
    pub(crate) span: Span,
}

impl<'s, S> SourceSpan<'s, S> {
    pub open(crate) spec fn spec_source(&self) -> S {
        *self.source
    }

    pub open(crate) spec fn spec_span(&self) -> Span {
        self.span
    }
}

impl<'s, S: Source> SourceSpan<'s, S> {
    /// The span as `name[start..end]`.
    pub fn to_string(&self) -> (r: String)
        ensures
            r@ == qualified_text(self.spec_source().spec_name(), span_text(self.spec_span())),
    {
        let text = self.span.to_string();
        qualified(self.source.name(), text.as_str())
    }

    /// The text of the source that the span covers, where the source keeps it.
    pub fn excerpt(&self) -> (r: Result<String, Error>)
        ensures
            self.spec_source().excerpt_text(self.spec_span()) matches Some(t) ==> (r matches Ok(s)
                && s@ == t),
            self.spec_source().excerpt_text(self.spec_span()) is None ==> r == Err::<
                String,
                Error,
            >(Error::ExcerptUnavailable),
    {
        self.source.excerpt(self.span)
    }
}

impl<'s, S> Clone for SourceSpan<'s, S> {
    fn clone(&self) -> (r: Self)
        ensures
            r == *self,
    {
        SourceSpan { source: self.source, span: self.span }
    }
}

impl<'s, S> Locator for SourceSpan<'s, S> {
    type Span = SourceSpan<'s, S>;

    open spec fn can_move(&self) -> bool {
        self.spec_span().spec_end().has_room()
    }

    fn location(&self) -> (r: &Location)
        ensures
            *r == self.spec_span().spec_start(),
    {
        self.span.location()
    }

    fn location_after(&self, next: char) -> (r: Self)
        ensures
            r.spec_source() == self.spec_source(),
            r.spec_span() == span_between(
                self.spec_span().spec_end(),
                self.spec_span().spec_end().after(next),
            ),
    {
        SourceSpan { source: self.source, span: self.span.location_after(next) }
    }

    fn span_to(&self, end: &Location) -> (r: SourceSpan<'s, S>)
        ensures
            r.spec_source() == self.spec_source(),
            r.spec_span() == span_between(self.spec_span().spec_start(), *end),
    {
        SourceSpan { source: self.source, span: self.span.span_to(end) }
    }
}

impl<'s, S> SpanLocator for SourceSpan<'s, S> {
    fn span(&self) -> (r: &Span)
        ensures
            *r == self.spec_span(),
    {
        &self.span
    }

    fn extended_span(&self, next: char) -> (r: Self)
        ensures
            r.spec_source() == self.spec_source(),
            r.spec_span() == span_between(
                self.spec_span().spec_start(),
                self.spec_span().spec_end().after(next),
            ),
    {
        SourceSpan { source: self.source, span: self.span.extended_span(next) }
    }
}

} // verus!
