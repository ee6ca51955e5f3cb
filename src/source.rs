//! Sources of characters.
//!
//! A source is opened once: its characters can be taken a single time. The text
//! source holds all of its text up front; the reader source is fed a line at a time
//! by its caller, which does the reading.
use vstd::prelude::*;

use crate::error::Error;
use crate::location::Span;

verus! {

/// One step of a pull-based stream.
#[derive(Debug, Clone, PartialEq, Eq)]
pub enum Next<T> {
    /// The next item.
    Item(T),
    /// The stream is exhausted, and stays so.
    End,
    /// No item can be produced until more input is supplied.
    NeedInput,
}

/// A single-use sequence of characters.
///
/// Input that the stream takes from outside arrives through `supply`, a line at a
/// time; what has been handed in and not yet read is `pending`.
pub trait CharStream: Sized {
    /// The characters still to come, where all of them are known in advance.
    spec fn known_rest(&self) -> Option<Seq<char>>;

    /// The characters at hand and not yet pulled.
    spec fn pending(&self) -> Seq<char>;

    /// A failure to read, to be reported once the pending characters are pulled.
    spec fn pending_failure(&self) -> Option<Error>;

    /// No more input is taken: the input has ended or failed, or all of it was
    /// known from the start.
    spec fn input_closed(&self) -> bool;

    /// The stream is exhausted: every later pull ends.
    spec fn has_ended(&self) -> bool;

    /// A bound on the number of items that can still be pulled before the stream
    /// ends or asks for input.
    spec fn available(&self) -> nat;

    /// Pull the next character: a pending one; else the pending failure; else the
    /// end, once the input is closed; else a request for input.
    fn next(&mut self) -> (r: Next<Result<char, Error>>)
        ensures
            old(self).has_ended() ==> r is End && *final(self) == *old(self),
            r is End ==> final(self).has_ended(),
            r matches Next::Item(Err(_)) ==> final(self).has_ended(),
            r is Item ==> final(self).available() < old(self).available(),
            !(r is Item) ==> *final(self) == *old(self),
            old(self).known_rest() matches Some(rest) ==> {
                &&& rest.len() > 0 ==> r == Next::Item(Ok::<char, Error>(rest[0]))
                    && final(self).known_rest() == Some(rest.drop_first())
                &&& rest.len() == 0 ==> r is End && final(self).known_rest() == Some(rest)
            },
            !old(self).has_ended() && old(self).pending().len() > 0 ==> {
                &&& r == Next::Item(Ok::<char, Error>(old(self).pending()[0]))
                &&& final(self).pending() == old(self).pending().drop_first()
                &&& final(self).pending_failure() == old(self).pending_failure()
                &&& final(self).input_closed() == old(self).input_closed()
            },
            !old(self).has_ended() && old(self).pending().len() == 0 ==> match old(
                self,
            ).pending_failure() {
                Some(e) => r == Next::Item(Err::<char, Error>(e)),
                None => if old(self).input_closed() {
                    r is End
                } else {
                    r is NeedInput
                },
            },
    ;

    /// Hand the stream the next line of input, or the failure to read it. An empty
    /// line marks the end of the input. Nothing changes once the input is closed.
    fn supply(&mut self, line: Result<String, Error>)
        ensures
            old(self).has_ended() ==> *final(self) == *old(self),
            old(self).known_rest() is Some ==> *final(self) == *old(self),
            old(self).input_closed() ==> *final(self) == *old(self),
            !old(self).input_closed() ==> match line {
                Ok(l) => {
                    &&& final(self).pending() == old(self).pending() + l@
                    &&& final(self).pending_failure() == old(self).pending_failure()
                    &&& final(self).input_closed() <==> l@.len() == 0
                    &&& final(self).known_rest() == old(self).known_rest()
                },
                Err(e) => {
                    &&& final(self).pending() == old(self).pending()
                    &&& final(self).pending_failure() == Some(e)
                    &&& final(self).input_closed()
                    &&& final(self).known_rest() == old(self).known_rest()
                },
            },
    ;
}

/// A character source.
pub trait Source: Sized {
    /// The stream over the characters of the source.
    type Chars: CharStream;

    /// The name shown when reporting positions in the source.
    spec fn spec_name(&self) -> Seq<char>;

    /// The characters have already been taken.
    spec fn is_consumed(&self) -> bool;

    /// The whole text of the source, where it is known in advance.
    spec fn known_text(&self) -> Option<Seq<char>>;

    /// Get the name of the source.
    ///
    /// This is displayed when showing errors in the source.
    fn name(&self) -> (r: String)
        ensures
            r@ == self.spec_name(),
    ;

    /// The text that `span` covers, where the source holds it.
    spec fn excerpt_text(&self, span: Span) -> Option<Seq<char>>;

    /// Get an excerpt from the source: the text that `span` covers, or
    /// `ExcerptUnavailable` where the source does not hold it.
    fn excerpt(&self, span: Span) -> (r: Result<String, Error>)
        ensures
            self.excerpt_text(span) matches Some(t) ==> (r matches Ok(s) && s@ == t),
            self.excerpt_text(span) is None ==> r == Err::<String, Error>(
                Error::ExcerptUnavailable,
            ),
    ;

    /// Get the characters of the source; this succeeds once only.
    fn chars(&mut self) -> (r: Option<Self::Chars>)
        ensures
            r is Some <==> !old(self).is_consumed(),
            final(self).is_consumed(),
            final(self).spec_name() == old(self).spec_name(),
            final(self).known_text() == old(self).known_text(),
            r matches Some(c) ==> c.known_rest() == old(self).known_text(),
            r matches Some(c) ==> (c.known_rest() matches Some(t) ==> t.len() <= usize::MAX),
    ;
}

/// Relies on `str::chars` and `collect`: the characters of `s`, in order.
#[verifier::external_body]
pub(crate) fn chars_of(s: &str) -> (r: Vec<char>)
    ensures
        r@ == s@,
{
    s.chars().collect()
}

/// Relies on `String::push`: appends `c` to the end of `s`.
#[verifier::external_body]
pub(crate) fn push_char(s: &mut String, c: char)
    ensures
        final(s)@ == old(s)@.push(c),
{
    s.push(c)
}

/// A source whose text is held in memory.
#[derive(Debug)]
pub struct TextSource<'t> {
    name: String,
    buffer: &'t str,
    consumed: bool,
}

impl<'t> TextSource<'t> {
    pub closed spec fn text(&self) -> Seq<char> {
        self.buffer@
    }

    pub fn from_str(name: &str, text: &'t str) -> (r: Self)
        ensures
            r.spec_name() == name@,
            r.text() == text@,
            r.known_text() == Some(text@),
            forall|span: Span| #[trigger] r.excerpt_text(span) == excerpt_of(text@, span),
            !r.is_consumed(),
    {
        TextSource { name: name.to_owned(), buffer: text, consumed: false }
    }
}

/// The characters of `text` that lie between the offsets of `span`, where the span
/// lies within the text.
pub open spec fn excerpt_of(text: Seq<char>, span: Span) -> Option<Seq<char>> {
    let from = span.spec_start().spec_character();
    let to = span.spec_end().spec_character();
    if from <= to && to <= text.len() {
        Some(text.subrange(from as int, to as int))
    } else {
        None
    }
}

impl<'t> Source for TextSource<'t> {
    type Chars = TextChars;

    closed spec fn spec_name(&self) -> Seq<char> {
        self.name@
    }

    closed spec fn is_consumed(&self) -> bool {
        self.consumed
    }

    closed spec fn known_text(&self) -> Option<Seq<char>> {
        Some(self.buffer@)
    }

    fn name(&self) -> (r: String) {
        self.name.clone()
    }

    /// The text between the span's character offsets; none where the span reaches
    /// outside the text.
    closed spec fn excerpt_text(&self, span: Span) -> Option<Seq<char>> {
        excerpt_of(self.buffer@, span)
    }

    fn excerpt(&self, span: Span) -> (r: Result<String, Error>) {
        let from = span.start().character();
        let to = span.end().character();
        let len = self.buffer.unicode_len();
        if from <= to && to <= len as u64 {
            let part = self.buffer.substring_char(from as usize, to as usize);
            Ok(part.to_owned())
        } else {
            Err(Error::ExcerptUnavailable)
        }
    }

    fn chars(&mut self) -> (r: Option<TextChars>) {
        if self.consumed {
            None
        } else {
            self.consumed = true;
            let chars = chars_of(self.buffer);
            let count = chars.len();
            assert(chars@.subrange(0, count as int) =~= chars@);
            Some(TextChars { chars, next: 0 })
        }
    }
}

/// The characters of a text source.
pub struct TextChars {
    chars: Vec<char>,
    next: usize,
}

impl CharStream for TextChars {
    closed spec fn known_rest(&self) -> Option<Seq<char>> {
        if self.next <= self.chars@.len() {
            Some(self.chars@.subrange(self.next as int, self.chars@.len() as int))
        } else {
            Some(Seq::empty())
        }
    }

    closed spec fn pending(&self) -> Seq<char> {
        self.known_rest()->0
    }

    closed spec fn pending_failure(&self) -> Option<Error> {
        None
    }

    /// All of the text is known from the start.
    closed spec fn input_closed(&self) -> bool {
        true
    }

    closed spec fn has_ended(&self) -> bool {
        self.next >= self.chars@.len()
    }

    closed spec fn available(&self) -> nat {
        if self.next < self.chars@.len() {
            (self.chars@.len() - self.next) as nat
        } else {
            0
        }
    }

    fn next(&mut self) -> (r: Next<Result<char, Error>>) {
        if self.next < self.chars.len() {
            let c = self.chars[self.next];
            self.next = self.next + 1;
            assert(self.chars@.subrange(self.next as int, self.chars@.len() as int)
                =~= old(self).known_rest()->0.drop_first());
            Next::Item(Ok(c))
        } else {
            Next::End
        }
    }

    fn supply(&mut self, line: Result<String, Error>) {
    }
}

/// A source read from a byte stream by its caller, one line at a time.
///
/// The caller reads each line when the stream asks for input and hands it over
/// with `supply`; an empty line marks the end of the input. Consumed lines are not
/// kept, so excerpts are unavailable.
#[derive(Debug)]
pub struct ReaderSource {
    name: String,
    consumed: bool,
}

impl ReaderSource {
    pub fn from_reader(name: &str) -> (r: Self)
        ensures
            r.spec_name() == name@,
            !r.is_consumed(),
            r.known_text() is None,
    {
        ReaderSource { name: name.to_owned(), consumed: false }
    }
}

impl Source for ReaderSource {
    type Chars = ReaderChars;

    closed spec fn spec_name(&self) -> Seq<char> {
        self.name@
    }

    closed spec fn is_consumed(&self) -> bool {
        self.consumed
    }

    closed spec fn known_text(&self) -> Option<Seq<char>> {
        None
    }

    fn name(&self) -> (r: String) {
        self.name.clone()
    }

    /// Consumed lines are not kept, so no excerpt is available.
    closed spec fn excerpt_text(&self, span: Span) -> Option<Seq<char>> {
        None
    }

    fn excerpt(&self, span: Span) -> (r: Result<String, Error>) {
        Err(Error::ExcerptUnavailable)
    }

    fn chars(&mut self) -> (r: Option<ReaderChars>) {
        if self.consumed {
            None
        } else {
            self.consumed = true;
            Some(ReaderChars::from_reader())
        }
    }
}

/// The characters of a reader source: the current line and the position within
/// it, a read failure still to be reported, whether the input has ended, and
/// whether a failure has been reported.
pub struct ReaderChars {
    next: usize,
    buffer: Vec<char>,
    failure: Option<Error>,
    input_ended: bool,
    failed: bool,
}

impl ReaderChars {
    pub closed spec fn spec_next(&self) -> nat {
        self.next as nat
    }

    pub closed spec fn spec_buffer(&self) -> Seq<char> {
        self.buffer@
    }

    pub closed spec fn spec_failure(&self) -> Option<Error> {
        self.failure
    }

    /// The end of the input has been handed in.
    pub closed spec fn spec_input_ended(&self) -> bool {
        self.input_ended
    }

    /// A read failure has been reported.
    pub closed spec fn spec_failed(&self) -> bool {
        self.failed
    }

    fn from_reader() -> (r: ReaderChars)
        ensures
            r.spec_next() == 0,
            r.spec_buffer() == Seq::<char>::empty(),
            r.spec_failure() is None,
            !r.spec_input_ended(),
            !r.spec_failed(),
            r.pending() == Seq::<char>::empty(),
            !r.input_closed(),
            !r.has_ended(),
    {
        let r = ReaderChars {
            next: 0,
            buffer: Vec::new(),
            failure: None,
            input_ended: false,
            failed: false,
        };
        assert(r.buffer@.subrange(0, 0) =~= Seq::<char>::empty());
        r
    }

    /// The next character of the current line, if any is left.
    pub fn next_char(&mut self) -> (r: Option<char>)
        ensures
            old(self).spec_next() < old(self).spec_buffer().len() ==> {
                &&& r == Some(old(self).spec_buffer()[old(self).spec_next() as int])
                &&& final(self).spec_next() == old(self).spec_next() + 1
            },
            old(self).spec_next() >= old(self).spec_buffer().len() ==> r is None
                && final(self).spec_next() == old(self).spec_next(),
            final(self).spec_buffer() == old(self).spec_buffer(),
            final(self).spec_failure() == old(self).spec_failure(),
            final(self).spec_input_ended() == old(self).spec_input_ended(),
            final(self).spec_failed() == old(self).spec_failed(),
    {
        if self.next < self.buffer.len() {
            let next = self.buffer[self.next];
            self.next = self.next + 1;
            Some(next)
        } else {
            None
        }
    }

    /// Replace the current line with the one read, or pass on the failure to read.
    pub fn refill_buffer(&mut self, line: Result<String, Error>) -> (r: Result<(), Error>)
        ensures
            line matches Ok(l) ==> {
                &&& r is Ok
                &&& final(self).spec_buffer() == l@
                &&& final(self).spec_next() == 0
            },
            line matches Err(e) ==> r == Err::<(), Error>(e) && final(self).spec_buffer()
                == old(self).spec_buffer() && final(self).spec_next() == old(self).spec_next(),
            final(self).spec_failure() == old(self).spec_failure(),
            final(self).spec_input_ended() == old(self).spec_input_ended(),
            final(self).spec_failed() == old(self).spec_failed(),
    {
        match line {
            Ok(line) => {
                self.buffer = chars_of(line.as_str());
                self.next = 0;
                Ok(())
            },
            Err(err) => Err(err),
        }
    }

    /// Keep the unread rest of the current line, followed by `line`.
    fn append_line(&mut self, line: &str)
        ensures
            final(self).pending() == old(self).pending() + line@,
            final(self).spec_next() == 0,
            final(self).spec_failure() == old(self).spec_failure(),
            final(self).spec_input_ended() == old(self).spec_input_ended(),
            final(self).spec_failed() == old(self).spec_failed(),
    {
        let added = chars_of(line);
        let mut joined: Vec<char> = Vec::new();
        let start: usize = if self.next <= self.buffer.len() { self.next } else { self.buffer.len() };
        let ghost rest = self.pending();
        assert(rest =~= self.buffer@.subrange(start as int, self.buffer@.len() as int));
        let mut i: usize = start;
        while i < self.buffer.len()
            invariant
                start <= i <= self.buffer.len(),
                rest == self.buffer@.subrange(start as int, self.buffer@.len() as int),
                joined@ =~= self.buffer@.subrange(start as int, i as int),
            decreases self.buffer.len() - i,
        {
            joined.push(self.buffer[i]);
            i = i + 1;
        }
        let ghost kept = joined@;
        assert(kept =~= rest);
        let mut k: usize = 0;
        while k < added.len()
            invariant
                k <= added.len(),
                added@ == line@,
                joined@ =~= kept + added@.subrange(0, k as int),
            decreases added.len() - k,
        {
            joined.push(added[k]);
            k = k + 1;
        }
        assert(added@.subrange(0, added@.len() as int) =~= added@);
        self.buffer = joined;
        self.next = 0;
        assert(self.buffer@.subrange(0, self.buffer@.len() as int) =~= self.buffer@);
    }
}

impl CharStream for ReaderChars {
    closed spec fn known_rest(&self) -> Option<Seq<char>> {
        None
    }

    closed spec fn pending(&self) -> Seq<char> {
        if self.next <= self.buffer@.len() {
            self.buffer@.subrange(self.next as int, self.buffer@.len() as int)
        } else {
            Seq::empty()
        }
    }

    closed spec fn pending_failure(&self) -> Option<Error> {
        self.failure
    }

    closed spec fn input_closed(&self) -> bool {
        self.input_ended || self.failed || self.failure is Some
    }

    closed spec fn has_ended(&self) -> bool {
        self.failed || (self.input_ended && self.next >= self.buffer@.len() && self.failure is None)
    }

    closed spec fn available(&self) -> nat {
        let left: nat = if self.next < self.buffer@.len() {
            (self.buffer@.len() - self.next) as nat
        } else {
            0
        };
        if self.failure is Some {
            left + 1
        } else {
            left
        }
    }

    /// A character of the current line; else the pending read failure, after which
    /// the stream has ended; else the end, once the input has ended; else a request
    /// for the next line.
    fn next(&mut self) -> (r: Next<Result<char, Error>>)
        ensures
            !old(self).has_ended() && old(self).spec_next() < old(self).spec_buffer().len()
                ==> r == Next::Item(Ok::<char, Error>(
                old(self).spec_buffer()[old(self).spec_next() as int],
            )) && final(self).spec_next() == old(self).spec_next() + 1,
            !old(self).has_ended() && old(self).spec_next() >= old(self).spec_buffer().len()
                ==> match old(self).spec_failure() {
                Some(e) => r == Next::Item(Err::<char, Error>(e)) && final(self).spec_failed()
                    && final(self).spec_failure() is None,
                None => if old(self).spec_input_ended() {
                    r is End
                } else {
                    r is NeedInput
                },
            },
            final(self).spec_buffer() == old(self).spec_buffer(),
            final(self).spec_input_ended() == old(self).spec_input_ended(),
            !(r matches Next::Item(Err(_))) ==> final(self).spec_failure() == old(
                self,
            ).spec_failure() && final(self).spec_failed() == old(self).spec_failed(),
            !(r matches Next::Item(Ok(_))) ==> final(self).spec_next() == old(self).spec_next(),
    {
        if self.failed {
            return Next::End;
        }
        if self.next < self.buffer.len() {
            let c = self.next_char().unwrap();
            assert(self.buffer@.subrange(self.next as int, self.buffer@.len() as int)
                =~= old(self).pending().drop_first());
            return Next::Item(Ok(c));
        }
        if self.failure.is_some() {
            let err = self.failure.take().unwrap();
            self.failed = true;
            return Next::Item(Err(err));
        }
        if self.input_ended {
            Next::End
        } else {
            Next::NeedInput
        }
    }

    /// A line follows the characters still unread; an empty line ends the input; a
    /// failure is reported once those characters are pulled. Nothing changes once
    /// the input is closed.
    fn supply(&mut self, line: Result<String, Error>)
        ensures
            !old(self).input_closed() ==> match line {
                Ok(l) => {
                    &&& l@.len() == 0 ==> final(self).spec_input_ended()
                        && final(self).spec_buffer() == old(self).spec_buffer()
                        && final(self).spec_next() == old(self).spec_next()
                    &&& old(self).spec_next() >= old(self).spec_buffer().len() && l@.len() > 0
                        ==> final(self).spec_buffer() == l@ && final(self).spec_next() == 0
                },
                Err(e) => final(self).spec_failure() == Some(e) && final(self).spec_buffer()
                    == old(self).spec_buffer() && final(self).spec_next() == old(self).spec_next(),
            },
    {
        if self.input_ended || self.failed || self.failure.is_some() {
            return;
        }
        match line {
            Ok(line) => {
                if line.as_str().is_empty() {
                    self.input_ended = true;
                } else if self.next >= self.buffer.len() {
                    let ghost text = line@;
                    let _ = self.refill_buffer(Ok(line));
                    assert(self.buffer@.subrange(0, self.buffer@.len() as int) =~= text);
                    assert(old(self).pending() =~= Seq::<char>::empty());
                    assert(old(self).pending() + text =~= text);
                } else {
                    self.append_line(line.as_str());
                }
            },
            Err(err) => {
                self.failure = Some(err);
            },
        }
    }
}

} // verus!
