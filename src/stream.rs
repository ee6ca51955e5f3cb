//! The token stream: the lexer that pulls characters from a source and hands out
//! tokens with their spans.
use vstd::prelude::*;

use crate::error::Error;
use crate::lex::{
    describes, is_word_char, joined_tokens, lemma_describes_grow, lemma_describes_text,
    lemma_describes_unique, lemma_joined_tokens, lemma_lex_shape, lemma_lex_stable,
    lemma_location_of_counts, lemma_location_of_push, lemma_match_grow, lemma_match_push,
    lemma_tokens_partition_text, lex, same_token, token_text, tokens_match, covers,
};
use crate::location::{
    location_of, origin, span_between, Locator, SourceLocation, SourceSpan, Span, SpanLocator,
};
use crate::source::{push_char, CharStream, Next, Source};
use crate::tokens::Token;

verus! {

/// A stream of tokens, each with the span of the source that it covers.
///
/// One token is held back while it may still grow: a word ends only at the first
/// character after it that is not a word character, or at the end of the input.
/// A read failure is reported after the held-back token has been handed out, and
/// ends the stream.
pub struct TokenStream<'s, S: Source> {
    buffer: Option<(Token, SourceSpan<'s, S>)>,
    chars: Chars<'s, S>,
    pending: Option<Error>,
    exhausted: bool,
    finished: bool,
    consumed: Ghost<Seq<char>>,
    emitted: Ghost<Seq<(Token, Span)>>,
    text: Ghost<Option<Seq<char>>>,
}

impl<'s, S: Source> TokenStream<'s, S> {
    /// The tokens handed out so far, each with its span.
    pub closed spec fn emitted(&self) -> Seq<(Token, Span)> {
        self.emitted@
    }

    /// The characters read from the source so far.
    pub closed spec fn consumed(&self) -> Seq<char> {
        self.consumed@
    }

    /// The whole text of the source, where it was known when the stream opened.
    pub closed spec fn text(&self) -> Option<Seq<char>> {
        self.text@
    }

    /// The stream is exhausted: every further pull ends.
    pub closed spec fn is_finished(&self) -> bool {
        self.finished
    }

    /// The source that the spans of the tokens refer to.
    pub closed spec fn source(&self) -> S {
        self.chars.location.spec_source()
    }

    /// The token held back, with its span, while it may still grow: none or one.
    pub closed spec fn held(&self) -> Seq<(Token, Span)> {
        self.buffered()
    }

    /// The input at hand and not yet read.
    pub closed spec fn pending(&self) -> Seq<char> {
        self.chars.chars.pending()
    }

    /// A failure of the source to read, still to be reported.
    pub closed spec fn pending_failure(&self) -> Option<Error> {
        self.chars.chars.pending_failure()
    }

    /// A failure has been met and waits to be reported by the next pull, after the
    /// token that was held back when it came.
    pub closed spec fn failing(&self) -> bool {
        self.pending is Some
    }

    /// The source takes no more input.
    pub closed spec fn input_closed(&self) -> bool {
        self.chars.chars.input_closed()
    }

    closed spec fn buffered(&self) -> Seq<(Token, Span)> {
        match self.buffer {
            Some((t, sp)) => seq![(t, sp.spec_span())],
            None => Seq::empty(),
        }
    }

    /// The invariant of the stream: the tokens handed out, followed by the one held
    /// back, are those of the characters read so far.
    pub closed spec fn wf(&self) -> bool {
        let consumed = self.consumed@;
        &&& consumed.len() <= u64::MAX
        &&& self.chars.location.spec_location() == location_of(consumed)
        &&& tokens_match(self.emitted@ + self.buffered(), lex(consumed))
        &&& self.buffer matches Some((_, sp)) ==> sp.spec_span().spec_end() == location_of(consumed)
            && sp.spec_source() == self.chars.location.spec_source()
        &&& (self.buffer is None && consumed.len() > 0 && is_word_char(consumed.last())) ==> (
        self.exhausted || self.pending is Some || self.finished)
        &&& self.pending is Some ==> self.buffer is None
        &&& self.exhausted ==> self.buffer is None && self.chars.chars.has_ended()
        &&& self.finished ==> self.buffer is None && self.pending is None
        &&& self.text@ matches Some(t) ==> {
            &&& t.len() <= usize::MAX
            &&& consumed.len() <= t.len()
            &&& consumed == t.subrange(0, consumed.len() as int)
            &&& self.chars.chars.known_rest() == Some(t.subrange(consumed.len() as int, t.len() as int))
            &&& self.pending is None
            &&& self.finished ==> self.exhausted
            &&& self.exhausted ==> consumed == t
        }
    }

    /// Open a stream over the characters of `source`; this fails where they were
    /// already taken.
    pub fn try_new(source: &'s mut S) -> (r: Result<TokenStream<'s, S>, Error>)
        ensures
            r is Ok <==> !old(source).is_consumed(),
            r matches Ok(stream) ==> {
                &&& stream.wf()
                &&& stream.emitted() == Seq::<(Token, Span)>::empty()
                &&& stream.consumed() == Seq::<char>::empty()
                &&& stream.held() == Seq::<(Token, Span)>::empty()
                &&& stream.text() == old(source).known_text()
                &&& stream.text() matches Some(t) ==> t.len() <= usize::MAX
                &&& stream.source() == *final(source)
                &&& !stream.is_finished()
            },
            final(source).is_consumed(),
            final(source).spec_name() == old(source).spec_name(),
            final(source).known_text() == old(source).known_text(),
            r matches Err(e) ==> e matches Error::SourceConsumed(name) && name@ == old(
                source,
            ).spec_name(),
    {
        let chars = Chars::try_from_source(source)?;
        let stream = TokenStream {
            buffer: None,
            chars,
            pending: None,
            exhausted: false,
            finished: false,
            consumed: Ghost(Seq::empty()),
            emitted: Ghost(Seq::empty()),
            text: Ghost(chars.chars.known_rest()),
        };
        proof {
            if let Some(t) = stream.text@ {
                assert(t.subrange(0, 0) =~= Seq::<char>::empty());
                assert(t.subrange(0, t.len() as int) =~= t);
            }
            assert(stream.emitted@ + stream.buffered() =~= Seq::<(Token, Span)>::empty());
        }
        Ok(stream)
    }

    /// Hand the source the next line of input, after the stream has asked for it.
    pub fn supply(&mut self, line: Result<String, Error>)
        requires
            old(self).wf(),
        ensures
            final(self).wf(),
            final(self).emitted() == old(self).emitted(),
            final(self).consumed() == old(self).consumed(),
            final(self).text() == old(self).text(),
            final(self).is_finished() == old(self).is_finished(),
            final(self).source() == old(self).source(),
            final(self).held() == old(self).held(),
            old(self).input_closed() ==> {
                &&& final(self).pending() == old(self).pending()
                &&& final(self).pending_failure() == old(self).pending_failure()
                &&& final(self).input_closed()
            },
            !old(self).input_closed() ==> match line {
                Ok(l) => {
                    &&& final(self).pending() == old(self).pending() + l@
                    &&& final(self).pending_failure() == old(self).pending_failure()
                    &&& final(self).input_closed() <==> l@.len() == 0
                },
                Err(e) => {
                    &&& final(self).pending() == old(self).pending()
                    &&& final(self).pending_failure() == Some(e)
                    &&& final(self).input_closed()
                },
            },
    {
        self.chars.chars.supply(line);
    }

    /// Pull the next token with its span; `End` once the source is exhausted, and
    /// `NeedInput` where the source must first be handed more input. A stream that
    /// has ended keeps ending, and a failure ends it.
    pub fn next(&mut self) -> (r: Next<Result<(Token, SourceSpan<'s, S>), Error>>)
        requires
            old(self).wf(),
        ensures
            final(self).wf(),
            final(self).text() == old(self).text(),
            final(self).source() == old(self).source(),
            old(self).is_finished() ==> r is End && *final(self) == *old(self),
            r is End ==> final(self).is_finished(),
            r matches Next::Item(Err(_)) ==> final(self).is_finished(),
            r matches Next::Item(Ok((t, sp))) ==> final(self).emitted() == old(self).emitted().push(
                (t, sp.spec_span()),
            ) && sp.spec_source() == old(self).source(),
            !(r matches Next::Item(Ok(_))) ==> final(self).emitted() == old(self).emitted(),
            r is End ==> tokens_match(final(self).emitted(), lex(final(self).consumed())),
            final(self).text() matches Some(t) ==> {
                &&& !(r is NeedInput)
                &&& !(r matches Next::Item(Err(_)))
                &&& r is End ==> final(self).consumed() == t
            },
            tokens_match(final(self).emitted() + final(self).held(), lex(final(self).consumed())),
            final(self).held().len() <= 1,
            !(r matches Next::Item(Err(_))) && !final(self).failing() ==> final(self).consumed()
                + final(self).pending() == old(self).consumed() + old(self).pending(),
            r is NeedInput ==> {
                &&& final(self).pending().len() == 0
                &&& final(self).pending_failure() is None
                &&& !final(self).input_closed()
            },
            final(self).text() matches Some(t) ==> {
                &&& final(self).emitted().len() <= lex(t).len()
                &&& forall|i: int|
                    0 <= i < final(self).emitted().len() ==> describes(
                        #[trigger] final(self).emitted()[i].0,
                        lex(t)[i].0,
                    ) && final(self).emitted()[i].1 == lex(t)[i].1
                &&& r is End <==> old(self).emitted().len() == lex(t).len()
                &&& r matches Next::Item(Ok((tok, sp))) ==> describes(
                    tok,
                    lex(t)[old(self).emitted().len() as int].0,
                ) && sp.spec_span() == lex(t)[old(self).emitted().len() as int].1
            },
    {
        proof {
            if self.text@ is Some {
                self.lemma_follows_text();
            }
        }
        let ghost k = self.emitted@.len();
        let r = self.pull();
        proof {
            if self.text@ is Some {
                self.lemma_follows_text();
                if r is Item && r->Item_0 is Ok {
                    let item = r->Item_0->Ok_0;
                    assert(self.emitted@[k as int] == (item.0, item.1.spec_span()));
                    assert(describes(self.emitted()[k as int].0, lex(self.text@->0)[k as int].0));
                }
            }
        }
        r
    }

    fn pull(&mut self) -> (r: Next<Result<(Token, SourceSpan<'s, S>), Error>>)
        requires
            old(self).wf(),
        ensures
            final(self).wf(),
            final(self).text() == old(self).text(),
            final(self).source() == old(self).source(),
            old(self).is_finished() ==> r is End && *final(self) == *old(self),
            r is End ==> final(self).is_finished(),
            r matches Next::Item(Err(_)) ==> final(self).is_finished(),
            r matches Next::Item(Ok((t, sp))) ==> final(self).emitted() == old(self).emitted().push(
                (t, sp.spec_span()),
            ) && sp.spec_source() == old(self).source(),
            !(r matches Next::Item(Ok(_))) ==> final(self).emitted() == old(self).emitted(),
            r is End ==> tokens_match(final(self).emitted(), lex(final(self).consumed())),
            final(self).text() matches Some(t) ==> {
                &&& !(r is NeedInput)
                &&& !(r matches Next::Item(Err(_)))
                &&& r is End ==> final(self).consumed() == t
            },
            tokens_match(final(self).emitted() + final(self).held(), lex(final(self).consumed())),
            final(self).held().len() <= 1,
            !(r matches Next::Item(Err(_))) && !final(self).failing() ==> final(self).consumed()
                + final(self).pending() == old(self).consumed() + old(self).pending(),
            r is NeedInput ==> {
                &&& final(self).pending().len() == 0
                &&& final(self).pending_failure() is None
                &&& !final(self).input_closed()
            },
    {
        if self.finished {
            return Next::End;
        }
        if let Some(err) = self.pending.take() {
            self.finished = true;
            return Next::Item(Err(err));
        }
        loop
            invariant
                self.wf(),
                !old(self).finished,
                !self.finished,
                self.pending is None,
                self.text@ == old(self).text@,
                self.emitted@ == old(self).emitted@,
                self.chars.location.spec_source() == old(self).chars.location.spec_source(),
                self.consumed@ + self.chars.chars.pending() == old(self).consumed@
                    + old(self).chars.chars.pending(),
            decreases self.chars.chars.available(),
        {
            proof {
                lemma_lex_shape(self.consumed@);
                if let Some(t) = self.text@ {
                    lemma_location_of_counts(self.consumed@);
                }
            }
            match self.chars.next() {
                Next::NeedInput => {
                    return Next::NeedInput;
                },
                Next::End => {
                    self.exhausted = true;
                    proof {
                        if let Some(t) = self.text@ {
                            assert(t.subrange(self.consumed@.len() as int, t.len() as int).len()
                                == 0);
                            assert(self.consumed@ =~= t);
                        }
                    }
                    match self.buffer.take() {
                        Some(item) => {
                            proof {
                                self.emitted@ = self.emitted@.push((item.0, item.1.spec_span()));
                                assert(self.emitted@ + Seq::<(Token, Span)>::empty()
                                    =~= old(self).emitted@ + seq![(item.0, item.1.spec_span())]);
                            }
                            return Next::Item(Ok(item));
                        },
                        None => {
                            self.finished = true;
                            proof {
                                assert(self.emitted@ + Seq::<(Token, Span)>::empty()
                                    =~= self.emitted@);
                            }
                            return Next::End;
                        },
                    }
                },
                Next::Item(Err(err)) => {
                    match self.buffer.take() {
                        Some(item) => {
                            self.pending = Some(err);
                            proof {
                                self.emitted@ = self.emitted@.push((item.0, item.1.spec_span()));
                                assert(self.emitted@ + Seq::<(Token, Span)>::empty()
                                    =~= old(self).emitted@ + seq![(item.0, item.1.spec_span())]);
                            }
                            return Next::Item(Ok(item));
                        },
                        None => {
                            self.finished = true;
                            return Next::Item(Err(err));
                        },
                    }
                },
                Next::Item(Ok((c, location))) => {
                    let ghost before = self.consumed@;
                    let ghost all = self.emitted@ + self.buffered();
                    let ghost at = location_of(before);
                    proof {
                        lemma_location_of_push(before, c);
                        lemma_lex_shape(before);
                        lemma_location_of_counts(before);
                        self.consumed@ = before.push(c);
                        assert(self.consumed@ + self.chars.chars.pending() =~= old(self).consumed@
                            + old(self).chars.chars.pending());
                        if let Some(t) = self.text@ {
                            assert(self.consumed@ =~= t.subrange(0, self.consumed@.len() as int));
                            assert(t.subrange(before.len() as int, t.len() as int).drop_first()
                                =~= t.subrange(self.consumed@.len() as int, t.len() as int));
                        }
                    }
                    let next_location = location.location_after(c);
                    let char_span = location.span_to(next_location.location());
                    let ghost span = span_between(at, at.after(c));
                    assert(char_span.spec_span() == span);
                    let buffered = self.buffer.take();
                    match (buffered, Token::parse_char(c)) {
                        (Some((Token::Word(word), word_span)), None) => {
                            let ghost piece = lex(before).last().0;
                            let ghost grown = span_between(
                                word_span.spec_span().spec_start(),
                                at.after(c),
                            );
                            let mut word = word;
                            proof {
                                assert(all.last() == (Token::Word(word), word_span.spec_span()));
                                assert(describes(all[all.len() - 1].0, lex(before)[all.len() - 1].0));
                                assert(describes(Token::Word(word), piece));
                                lemma_describes_grow(piece, c);
                            }
                            push_char(&mut word, c);
                            proof {
                                lemma_match_grow(all, lex(before), Token::Word(word), piece.push(c), grown);
                                assert(all.drop_last() =~= self.emitted@);
                            }
                            self.buffer = Some((Token::Word(word), word_span.extended_span(c)));
                            assert(self.emitted@ + self.buffered() =~= all.drop_last().push(
                                (self.buffer->Some_0.0, grown),
                            ));
                        },
                        (Some(item), None) => {
                            let mut word = String::new();
                            push_char(&mut word, c);
                            proof {
                                assert(word@ =~= seq![c]);
                                assert(all.last() == (item.0, item.1.spec_span()));
                                assert(describes(all[all.len() - 1].0, lex(before)[all.len() - 1].0));
                                assert(describes(item.0, lex(before).last().0));
                                lemma_match_push(all, lex(before), Token::Word(word), seq![c], span);
                                self.emitted@ = self.emitted@.push((item.0, item.1.spec_span()));
                                assert(all =~= self.emitted@);
                            }
                            self.buffer = Some((Token::Word(word), char_span));
                            assert(self.emitted@ + self.buffered() =~= all.push(
                                (self.buffer->Some_0.0, span),
                            ));
                            return Next::Item(Ok(item));
                        },
                        (Some(item), Some(token)) => {
                            proof {
                                assert(all.last() == (item.0, item.1.spec_span()));
                                lemma_match_push(all, lex(before), token, seq![c], span);
                                self.emitted@ = self.emitted@.push((item.0, item.1.spec_span()));
                                assert(all =~= self.emitted@);
                            }
                            self.buffer = Some((token, char_span));
                            assert(self.emitted@ + self.buffered() =~= all.push((token, span)));
                            return Next::Item(Ok(item));
                        },
                        (None, Some(token)) => {
                            proof {
                                assert(all =~= self.emitted@);
                                lemma_match_push(all, lex(before), token, seq![c], span);
                                self.emitted@ = self.emitted@.push((token, span));
                                assert(self.emitted@ + self.buffered() =~= all.push(
                                    (token, span),
                                ));
                            }
                            return Next::Item(Ok((token, char_span)));
                        },
                        (None, None) => {
                            let mut word = String::new();
                            push_char(&mut word, c);
                            proof {
                                assert(word@ =~= seq![c]);
                                assert(all =~= self.emitted@);
                                lemma_match_push(all, lex(before), Token::Word(word), seq![c], span);
                            }
                            self.buffer = Some((Token::Word(word), char_span));
                            assert(self.emitted@ + self.buffered() =~= all.push(
                                (self.buffer->Some_0.0, span),
                            ));
                        },
                    }
                },
            }
        }
    }

    /// The tokens handed out by a stream over a text known in advance are the
    /// leading tokens of that text; all of them once the stream is finished.
    proof fn lemma_follows_text(&self)
        requires
            self.wf(),
            self.text() is Some,
        ensures
            self.text()->0.len() <= usize::MAX,
            self.emitted().len() <= lex(self.text()->0).len(),
            forall|i: int|
                0 <= i < self.emitted().len() ==> describes(
                    #[trigger] self.emitted()[i].0,
                    lex(self.text()->0)[i].0,
                ) && self.emitted()[i].1 == lex(self.text()->0)[i].1,
            self.is_finished() ==> self.emitted().len() == lex(self.text()->0).len(),
    {
        let t = self.text@->0;
        let consumed = self.consumed@;
        let all = self.emitted@ + self.buffered();
        lemma_lex_shape(consumed);
        if self.exhausted {
            assert(all =~= self.emitted@);
        } else {
            assert(t.subrange(0, consumed.len() as int) == consumed);
            lemma_lex_stable(consumed, t);
            assert forall|i: int| 0 <= i < self.emitted().len() implies describes(
                #[trigger] self.emitted()[i].0,
                lex(t)[i].0,
            ) && self.emitted()[i].1 == lex(t)[i].1 by {
                assert(all[i] == self.emitted@[i]);
                assert(describes(all[i].0, lex(consumed)[i].0));
            }
        }
    }
}

/// Partition, for a stream: once a stream over a text known in advance is
/// finished, the texts of its tokens, joined in order, give back the text; their
/// spans run from the origin to the end of the text with no gap or overlap; and
/// each span covers exactly its token's text.
pub proof fn lemma_stream_partitions_text<'s, S: Source>(stream: &TokenStream<'s, S>)
    requires
        stream.wf(),
        stream.is_finished(),
        stream.text() is Some,
    ensures
        ({
            let text = stream.text()->0;
            let tokens = stream.emitted();
            &&& joined_tokens(tokens) == text
            &&& tokens.len() > 0 ==> tokens[0].1.spec_start() == origin()
            &&& tokens.len() > 0 ==> tokens.last().1.spec_end() == location_of(text)
            &&& forall|i: int|
                0 <= i < tokens.len() - 1 ==> (#[trigger] tokens[i]).1.spec_end() == tokens[i
                    + 1].1.spec_start()
            &&& forall|i: int|
                0 <= i < tokens.len() ==> text.subrange(
                    (#[trigger] tokens[i]).1.spec_start().spec_character() as int,
                    tokens[i].1.spec_end().spec_character() as int,
                ) == token_text(tokens[i].0)
            &&& tokens.len() == 0 <==> text.len() == 0
            &&& location_of(text).spec_character() == text.len()
            &&& forall|i: int|
                0 <= i < tokens.len() ==> (#[trigger] tokens[i]).1.spec_start().spec_character()
                    < tokens[i].1.spec_end().spec_character()
        }),
{
    let text = stream.text()->0;
    let tokens = stream.emitted();
    let items = lex(text);
    stream.lemma_follows_text();
    assert(tokens_match(tokens, items));
    assert(joined_tokens(tokens) == text) by {
        lemma_joined_tokens(tokens, items);
        lemma_tokens_partition_text(text);
    }
    assert(tokens.len() > 0 ==> tokens[0].1.spec_start() == origin()) by {
        lemma_tokens_partition_text(text);
        if tokens.len() > 0 {
            assert(describes(tokens[0].0, items[0].0));
        }
    }
    assert(tokens.len() > 0 ==> tokens.last().1.spec_end() == location_of(text)) by {
        lemma_tokens_partition_text(text);
        if tokens.len() > 0 {
            assert(describes(tokens[tokens.len() - 1].0, items[tokens.len() - 1].0));
        }
    }
    assert forall|i: int| 0 <= i < tokens.len() - 1 implies (#[trigger] tokens[i]).1.spec_end()
        == tokens[i + 1].1.spec_start() by {
        lemma_tokens_partition_text(text);
        assert(describes(tokens[i].0, items[i].0));
        assert(describes(tokens[i + 1].0, items[i + 1].0));
        assert(items[i].1.spec_end() == items[i + 1].1.spec_start());
    }
    assert(tokens.len() == 0 <==> text.len() == 0) by {
        lemma_tokens_partition_text(text);
    }
    assert(location_of(text).spec_character() == text.len()) by {
        lemma_tokens_partition_text(text);
    }
    assert forall|i: int| 0 <= i < tokens.len() implies (#[trigger] tokens[i]).1.spec_start().spec_character()
        < tokens[i].1.spec_end().spec_character() by {
        lemma_tokens_partition_text(text);
        assert(describes(tokens[i].0, items[i].0));
        assert(items[i].1.spec_start().spec_character() < items[i].1.spec_end().spec_character());
    }
    assert forall|i: int| 0 <= i < tokens.len() implies text.subrange(
        (#[trigger] tokens[i]).1.spec_start().spec_character() as int,
        tokens[i].1.spec_end().spec_character() as int,
    ) == token_text(tokens[i].0) by {
        lemma_tokens_partition_text(text);
        assert(describes(tokens[i].0, items[i].0));
        lemma_describes_text(tokens[i].0, items[i].0);
        assert(covers(text, items));
        let span = items[i].1;
        assert(text.subrange(
            span.spec_start().spec_character() as int,
            span.spec_end().spec_character() as int,
        ) == items[i].0);
    }
}

/// Restart independence: two streams over sources with the same text, known in
/// advance, hand out the same tokens with the same spans in the same order; once
/// both are finished, they have handed out equally many. Both hand out leading
/// tokens of that one text, and `next` hands out the token after them or ends
/// exactly when none is left, so two such streams pulled equally often also agree
/// on their next pull.
pub proof fn lemma_same_text_same_tokens<'a, 'b, S: Source, T: Source>(
    a: &TokenStream<'a, S>,
    b: &TokenStream<'b, T>,
)
    requires
        a.wf(),
        b.wf(),
        a.text() is Some,
        a.text() == b.text(),
    ensures
        forall|i: int|
            0 <= i < a.emitted().len() && i < b.emitted().len() ==> same_token(
                (#[trigger] a.emitted()[i]).0,
                (#[trigger] b.emitted()[i]).0,
            ) && a.emitted()[i].1 == b.emitted()[i].1,
        a.is_finished() && b.is_finished() ==> a.emitted().len() == b.emitted().len(),
        a.emitted().len() <= lex(a.text()->0).len(),
        b.emitted().len() <= lex(a.text()->0).len(),
        forall|i: int|
            0 <= i < a.emitted().len() ==> describes(
                #[trigger] a.emitted()[i].0,
                lex(a.text()->0)[i].0,
            ) && a.emitted()[i].1 == lex(a.text()->0)[i].1,
        forall|i: int|
            0 <= i < b.emitted().len() ==> describes(
                #[trigger] b.emitted()[i].0,
                lex(a.text()->0)[i].0,
            ) && b.emitted()[i].1 == lex(a.text()->0)[i].1,
{
    a.lemma_follows_text();
    b.lemma_follows_text();
    let items = lex(a.text()->0);
    assert forall|i: int| 0 <= i < a.emitted().len() && i < b.emitted().len() implies same_token(
        (#[trigger] a.emitted()[i]).0,
        (#[trigger] b.emitted()[i]).0,
    ) && a.emitted()[i].1 == b.emitted()[i].1 by {
        lemma_describes_unique(a.emitted()[i].0, b.emitted()[i].0, items[i].0);
    }
}


/// A stream of characters, each with the location where it starts.
pub struct Chars<'s, S: Source> {
    chars: S::Chars,
    location: SourceLocation<'s, S>,
}

impl<'s, S: Source> Chars<'s, S> {
    /// Open the characters of `source`, which fails where they were already taken.
    fn try_from_source(source: &'s mut S) -> (r: Result<Self, Error>)
        ensures
            r is Ok <==> !old(source).is_consumed(),
            r matches Ok(c) ==> {
                &&& c.location.spec_location() == origin()
                &&& c.location.spec_source() == *final(source)
                &&& c.chars.known_rest() == old(source).known_text()
                &&& (c.chars.known_rest() matches Some(t) ==> t.len() <= usize::MAX)
            },
            r matches Err(e) ==> e matches Error::SourceConsumed(name) && name@ == old(
                source,
            ).spec_name(),
            final(source).is_consumed(),
            final(source).spec_name() == old(source).spec_name(),
            final(source).known_text() == old(source).known_text(),
    {
        match source.chars() {
            Some(chars) => {
                let source: &'s S = source;
                let location = SourceLocation::source_start(source);
                Ok(Chars { chars, location })
            },
            None => Err(Error::SourceConsumed(source.name())),
        }
    }

    /// The next character with the location where it starts. The position moves on
    /// past the character; where it cannot, the pull fails.
    fn next(&mut self) -> (r: Next<Result<(char, SourceLocation<'s, S>), Error>>)
        ensures
            old(self).chars.has_ended() ==> r is End && *final(self) == *old(self),
            r is End ==> final(self).chars.has_ended(),
            r is Item ==> final(self).chars.available() < old(self).chars.available(),
            old(self).chars.known_rest() matches Some(rest) ==> {
                &&& rest.len() == 0 ==> r is End && final(self).chars.known_rest() == Some(rest)
                &&& rest.len() > 0 ==> final(self).chars.known_rest() == Some(rest.drop_first())
                &&& rest.len() > 0 && old(self).location.spec_location().has_room() ==> (
                r matches Next::Item(Ok((c, _))) && c == rest[0])
            },
            r matches Next::Item(Ok((c, loc))) ==> {
                &&& loc == old(self).location
                &&& loc.spec_location().has_room()
                &&& final(self).location.spec_location() == loc.spec_location().after(c)
            },
            !(r matches Next::Item(Ok(_))) ==> final(self).location == old(self).location,
            final(self).location.spec_source() == old(self).location.spec_source(),
            r matches Next::Item(Ok((c, _))) ==> {
                &&& old(self).chars.pending().len() > 0
                &&& c == old(self).chars.pending()[0]
                &&& final(self).chars.pending() == old(self).chars.pending().drop_first()
            },
            !(r is Item) ==> final(self).chars == old(self).chars,
            r is NeedInput ==> {
                &&& old(self).chars.pending().len() == 0
                &&& old(self).chars.pending_failure() is None
                &&& !old(self).chars.input_closed()
            },
    {
        let location = self.location.clone();
        match self.chars.next() {
            Next::Item(Ok(c)) => {
                if !location.location.can_advance() {
                    return Next::Item(Err(Error::PositionOverflow));
                }
                self.location = location.location_after(c);
                Next::Item(Ok((c, location)))
            },
            Next::Item(Err(err)) => Next::Item(Err(err)),
            Next::End => Next::End,
            Next::NeedInput => Next::NeedInput,
        }
    }
}

} // verus!
