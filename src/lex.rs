//! The tokens of a whole text, as a specification: the pieces of text they cover
//! and their spans, and the laws that those pieces obey.
use vstd::prelude::*;

use crate::location::{location_of, origin, span_between, Location, Span};
use crate::tokens::{char_token, token_char, Token};

verus! {

/// A character that belongs to a word: it forms no token of its own.
pub open spec fn is_word_char(c: char) -> bool {
    char_token(c) is None
}

/// The piece of text that a token covers, paired with its span.
pub type Piece = (Seq<char>, Span);

/// A piece that a word covers: one that starts with a word character.
pub open spec fn is_word_piece(piece: Seq<char>) -> bool {
    piece.len() > 0 && is_word_char(piece[0])
}

/// The pieces after character `c` at location `at` follows those of `items`: a word
/// character grows a word that ends the pieces so far; any other character starts
/// a piece of its own.
pub open spec fn lex_push(items: Seq<Piece>, c: char, at: Location) -> Seq<Piece> {
    if is_word_char(c) && items.len() > 0 && is_word_piece(items.last().0) {
        items.update(
            items.len() - 1,
            (items.last().0.push(c), span_between(items.last().1.spec_start(), at.after(c))),
        )
    } else {
        items.push((seq![c], span_between(at, at.after(c))))
    }
}

/// The pieces that the tokens of `text` cover, in order: each character that forms
/// a token of its own is a piece, and so is each maximal run of word characters.
pub open spec fn lex(text: Seq<char>) -> Seq<Piece>
    decreases text.len(),
{
    if text.len() == 0 {
        Seq::empty()
    } else {
        lex_push(lex(text.drop_last()), text.last(), location_of(text.drop_last()))
    }
}

/// The characters of the pieces, joined in order.
pub open spec fn joined(items: Seq<Piece>) -> Seq<char>
    decreases items.len(),
{
    if items.len() == 0 {
        Seq::empty()
    } else {
        joined(items.drop_last()) + items.last().0
    }
}

/// Token `t` is the one that covers `piece`: a word holding its characters, all of
/// them word characters, or the token that its one character forms.
pub open spec fn describes(t: Token, piece: Seq<char>) -> bool {
    match t {
        Token::Word(w) => {
            &&& w@ == piece
            &&& piece.len() > 0
            &&& forall|i: int| 0 <= i < piece.len() ==> is_word_char(#[trigger] piece[i])
        },
        _ => piece.len() == 1 && char_token(piece[0]) == Some(t),
    }
}

/// Each token with its span is the one for the piece at the same place.
pub open spec fn tokens_match(tokens: Seq<(Token, Span)>, items: Seq<Piece>) -> bool {
    &&& tokens.len() == items.len()
    &&& forall|i: int|
        0 <= i < tokens.len() ==> describes(#[trigger] tokens[i].0, items[i].0) && tokens[i].1
            == items[i].1
}

/// Two tokens are the same: words with the same text, or equal tokens otherwise.
pub open spec fn same_token(a: Token, b: Token) -> bool {
    match (a, b) {
        (Token::Word(x), Token::Word(y)) => x@ == y@,
        (Token::Word(_), _) => false,
        (_, Token::Word(_)) => false,
        _ => a == b,
    }
}

/// The number of leading pieces that no further character can change: all but a
/// final word, which may still grow.
pub open spec fn settled(items: Seq<Piece>) -> int {
    if items.len() > 0 && is_word_piece(items.last().0) {
        items.len() - 1
    } else {
        items.len() as int
    }
}

pub(crate) proof fn lemma_location_of_push(p: Seq<char>, c: char)
    ensures
        p.push(c).drop_last() == p,
        p.push(c).last() == c,
        location_of(p.push(c)) == location_of(p).after(c),
        lex(p.push(c)) == lex_push(lex(p), c, location_of(p)),
{
    assert(p.push(c).drop_last() =~= p);
}

/// The position reached after a text counts its characters, and its row and column
/// never exceed that count.
pub proof fn lemma_location_of_counts(text: Seq<char>)
    requires
        text.len() <= u64::MAX,
    ensures
        location_of(text).spec_character() == text.len(),
        location_of(text).spec_row() <= text.len(),
        location_of(text).spec_column() <= text.len(),
    decreases text.len(),
{
    if text.len() > 0 {
        lemma_location_of_counts(text.drop_last());
    }
}

/// The pieces of a text are never empty; a piece is a run of word characters or a
/// single character that forms a token; the last piece ends where the text ends,
/// and is a word exactly where the text ends with a word character.
pub(crate) proof fn lemma_lex_shape(text: Seq<char>)
    ensures
        text.len() == 0 <==> lex(text).len() == 0,
        forall|i: int|
            0 <= i < lex(text).len() ==> {
                let piece = #[trigger] lex(text)[i].0;
                &&& piece.len() > 0
                &&& is_word_char(piece[0]) ==> forall|k: int|
                    0 <= k < piece.len() ==> is_word_char(#[trigger] piece[k])
                &&& !is_word_char(piece[0]) ==> piece.len() == 1
            },
        text.len() > 0 ==> lex(text).last().1.spec_end() == location_of(text),
        text.len() > 0 ==> (is_word_piece(lex(text).last().0) <==> is_word_char(text.last())),
    decreases text.len(),
{
    if text.len() > 0 {
        let p = text.drop_last();
        lemma_lex_shape(p);
        let items = lex(p);
        let c = text.last();
        if is_word_char(c) && items.len() > 0 && is_word_piece(items.last().0) {
            let last = items.last().0;
            assert forall|k: int| 0 <= k < last.push(c).len() implies is_word_char(
                #[trigger] last.push(c)[k],
            ) by {
                if k < last.len() {
                    assert(last.push(c)[k] == last[k]);
                }
            }
        }
    }
}

/// Each piece's span lies within `text` and covers exactly the piece's characters.
pub open spec fn covers(text: Seq<char>, items: Seq<Piece>) -> bool {
    forall|i: int|
        0 <= i < items.len() ==> {
            let span = (#[trigger] items[i]).1;
            &&& span.spec_start().spec_character() <= span.spec_end().spec_character()
                <= text.len()
            &&& text.subrange(
                span.spec_start().spec_character() as int,
                span.spec_end().spec_character() as int,
            ) == items[i].0
        }
}

/// Each span ends where the next one starts.
pub open spec fn adjacent(items: Seq<Piece>) -> bool {
    forall|i: int|
        0 <= i < items.len() - 1 ==> (#[trigger] items[i]).1.spec_end() == items[i
            + 1].1.spec_start()
}

/// The pieces partition `text`: joined they give the text; their spans run from the
/// origin to the end of the text with no gap or overlap, and cover their pieces.
pub open spec fn partitions(text: Seq<char>, items: Seq<Piece>) -> bool {
    &&& joined(items) == text
    &&& items.len() > 0 ==> items[0].1.spec_start() == origin()
    &&& items.len() > 0 ==> items.last().1.spec_end() == location_of(text)
    &&& adjacent(items)
    &&& covers(text, items)
}

pub(crate) proof fn lemma_partition_step(p: Seq<char>, c: char)
    requires
        p.len() < u64::MAX,
        partitions(p, lex(p)),
    ensures
        partitions(p.push(c), lex(p.push(c))),
{
    let text = p.push(c);
    lemma_location_of_push(p, c);
    lemma_lex_shape(p);
    lemma_location_of_counts(p);
    let items = lex(p);
    let at = location_of(p);
    let out = lex(text);
    if is_word_char(c) && items.len() > 0 && is_word_piece(items.last().0) {
        let n = items.len() - 1;
        let piece = items.last().0;
        assert(out.drop_last() =~= items.drop_last());
        assert(joined(out) == joined(items.drop_last()) + piece.push(c));
        assert(joined(out) =~= text);
        assert(adjacent(out)) by {
            assert forall|i: int| 0 <= i < out.len() - 1 implies (#[trigger] out[i]).1.spec_end()
                == out[i + 1].1.spec_start() by {
                assert(items[i].1.spec_end() == items[i + 1].1.spec_start());
            }
        }
        assert(covers(text, out)) by {
            assert forall|i: int| 0 <= i < out.len() implies {
                let span = (#[trigger] out[i]).1;
                &&& span.spec_start().spec_character() <= span.spec_end().spec_character()
                    <= text.len()
                &&& text.subrange(
                    span.spec_start().spec_character() as int,
                    span.spec_end().spec_character() as int,
                ) == out[i].0
            } by {
                let span = items[i].1;
                let s = span.spec_start().spec_character() as int;
                if i < n {
                    assert(text.subrange(s, span.spec_end().spec_character() as int) =~= p.subrange(
                        s,
                        span.spec_end().spec_character() as int,
                    ));
                } else {
                    assert(text.subrange(s, text.len() as int) =~= p.subrange(
                        s,
                        p.len() as int,
                    ).push(c));
                }
            }
        }
    } else {
        assert(out.drop_last() =~= items);
        assert(joined(out) =~= text);
        assert(adjacent(out)) by {
            assert forall|i: int| 0 <= i < out.len() - 1 implies (#[trigger] out[i]).1.spec_end()
                == out[i + 1].1.spec_start() by {
                if i < items.len() - 1 {
                    assert(items[i].1.spec_end() == items[i + 1].1.spec_start());
                }
            }
        }
        assert(covers(text, out)) by {
            assert forall|i: int| 0 <= i < out.len() implies {
                let span = (#[trigger] out[i]).1;
                &&& span.spec_start().spec_character() <= span.spec_end().spec_character()
                    <= text.len()
                &&& text.subrange(
                    span.spec_start().spec_character() as int,
                    span.spec_end().spec_character() as int,
                ) == out[i].0
            } by {
                if i < items.len() {
                    let span = items[i].1;
                    assert(text.subrange(
                        span.spec_start().spec_character() as int,
                        span.spec_end().spec_character() as int,
                    ) =~= p.subrange(
                        span.spec_start().spec_character() as int,
                        span.spec_end().spec_character() as int,
                    ));
                } else {
                    assert(text.subrange(p.len() as int, text.len() as int) =~= seq![c]);
                }
            }
        }
    }
}

/// Partition: the spans of the tokens of a text follow one another from the origin
/// to the end of the text, with no gap and no overlap; each covers exactly the
/// characters of its token; and those characters, joined in order, give back the
/// text. (The counters of a position are 64-bit, which bounds the text.)
pub proof fn lemma_tokens_partition_text(text: Seq<char>)
    requires
        text.len() <= u64::MAX,
    ensures
        joined(lex(text)) == text,
        lex(text).len() > 0 ==> lex(text)[0].1.spec_start() == origin(),
        lex(text).len() > 0 ==> lex(text).last().1.spec_end() == location_of(text),
        forall|i: int|
            0 <= i < lex(text).len() - 1 ==> (#[trigger] lex(text)[i]).1.spec_end() == lex(
                text,
            )[i + 1].1.spec_start(),
        forall|i: int|
            0 <= i < lex(text).len() ==> {
                let span = (#[trigger] lex(text)[i]).1;
                &&& span.spec_start().spec_character() <= span.spec_end().spec_character()
                    <= text.len()
                &&& text.subrange(
                    span.spec_start().spec_character() as int,
                    span.spec_end().spec_character() as int,
                ) == lex(text)[i].0
            },
        lex(text).len() == 0 <==> text.len() == 0,
        location_of(text).spec_character() == text.len(),
        forall|i: int|
            0 <= i < lex(text).len() ==> (#[trigger] lex(text)[i]).1.spec_start().spec_character()
                < lex(text)[i].1.spec_end().spec_character(),
    decreases text.len(),
{
    lemma_lex_shape(text);
    lemma_location_of_counts(text);
    if text.len() > 0 {
        let p = text.drop_last();
        lemma_tokens_partition_text(p);
        assert(text =~= p.push(text.last()));
        lemma_partition_step(p, text.last());
    } else {
        assert(joined(lex(text)) =~= text);
    }
    assert(partitions(text, lex(text)));
    assert forall|i: int| 0 <= i < lex(text).len() implies (#[trigger] lex(
        text,
    )[i]).1.spec_start().spec_character() < lex(text)[i].1.spec_end().spec_character() by {
        assert(covers(text, lex(text)));
        assert(lex(text)[i].0.len() > 0);
    }
}

/// Reading more characters leaves the settled pieces of a prefix as they were.
pub(crate) proof fn lemma_lex_stable(p: Seq<char>, t: Seq<char>)
    requires
        p.len() <= t.len(),
        t.subrange(0, p.len() as int) == p,
    ensures
        lex(p).len() <= lex(t).len(),
        settled(lex(p)) <= lex(t).len(),
        forall|i: int| 0 <= i < settled(lex(p)) ==> #[trigger] lex(t)[i] == lex(p)[i],
    decreases t.len() - p.len(),
{
    if p.len() == t.len() {
        assert(p =~= t);
    } else {
        let u = t.drop_last();
        assert(u.subrange(0, p.len() as int) =~= p);
        lemma_lex_stable(p, u);
        assert(t =~= u.push(t.last()));
        lemma_location_of_push(u, t.last());
    }
}

pub(crate) proof fn lemma_match_push(
    tokens: Seq<(Token, Span)>,
    items: Seq<Piece>,
    t: Token,
    piece: Seq<char>,
    sp: Span,
)
    requires
        tokens_match(tokens, items),
        describes(t, piece),
    ensures
        tokens_match(tokens.push((t, sp)), items.push((piece, sp))),
{
    assert forall|i: int| 0 <= i < tokens.len() + 1 implies describes(
        #[trigger] tokens.push((t, sp))[i].0,
        items.push((piece, sp))[i].0,
    ) && tokens.push((t, sp))[i].1 == items.push((piece, sp))[i].1 by {
        if i < tokens.len() {
            assert(describes(tokens[i].0, items[i].0));
        }
    }
}

pub(crate) proof fn lemma_match_grow(
    tokens: Seq<(Token, Span)>,
    items: Seq<Piece>,
    t: Token,
    piece: Seq<char>,
    sp: Span,
)
    requires
        tokens_match(tokens, items),
        tokens.len() > 0,
        describes(t, piece),
    ensures
        tokens_match(tokens.drop_last().push((t, sp)), items.update(items.len() - 1, (piece, sp))),
{
    let a = tokens.drop_last().push((t, sp));
    let b = items.update(items.len() - 1, (piece, sp));
    assert forall|i: int| 0 <= i < a.len() implies describes(#[trigger] a[i].0, b[i].0) && a[i].1
        == b[i].1 by {
        if i < tokens.len() - 1 {
            assert(describes(tokens[i].0, items[i].0));
        }
    }
}

/// A word holding `piece` extended by the word character `c` is the word for the
/// longer piece.
pub(crate) proof fn lemma_describes_grow(piece: Seq<char>, c: char)
    requires
        piece.len() > 0,
        forall|i: int| 0 <= i < piece.len() ==> is_word_char(#[trigger] piece[i]),
        is_word_char(c),
    ensures
        forall|i: int| 0 <= i < piece.push(c).len() ==> is_word_char(#[trigger] piece.push(c)[i]),
{
    assert forall|i: int| 0 <= i < piece.push(c).len() implies is_word_char(
        #[trigger] piece.push(c)[i],
    ) by {
        if i < piece.len() {
            assert(piece.push(c)[i] == piece[i]);
        }
    }
}

/// The text that a token stands for: a word's characters, or the one character of
/// any other token.
pub open spec fn token_text(t: Token) -> Seq<char> {
    match t {
        Token::Word(w) => w@,
        _ => seq![token_char(t)->0],
    }
}

/// The texts of the tokens, joined in order.
pub open spec fn joined_tokens(tokens: Seq<(Token, Span)>) -> Seq<char>
    decreases tokens.len(),
{
    if tokens.len() == 0 {
        Seq::empty()
    } else {
        joined_tokens(tokens.drop_last()) + token_text(tokens.last().0)
    }
}

pub(crate) proof fn lemma_char_token_inverse(c: char)
    ensures
        char_token(c) matches Some(t) ==> token_char(t) == Some(c) && !(t is Word),
{
}

pub(crate) proof fn lemma_describes_text(t: Token, piece: Seq<char>)
    requires
        describes(t, piece),
    ensures
        token_text(t) == piece,
{
    if !(t is Word) {
        lemma_char_token_inverse(piece[0]);
        assert(piece =~= seq![piece[0]]);
    }
}

pub(crate) proof fn lemma_describes_unique(x: Token, y: Token, piece: Seq<char>)
    requires
        describes(x, piece),
        describes(y, piece),
    ensures
        same_token(x, y),
{
    if x is Word && !(y is Word) {
        assert(is_word_char(piece[0]));
    }
    if y is Word && !(x is Word) {
        assert(is_word_char(piece[0]));
    }
}

pub(crate) proof fn lemma_joined_tokens(tokens: Seq<(Token, Span)>, items: Seq<Piece>)
    requires
        tokens_match(tokens, items),
    ensures
        joined_tokens(tokens) == joined(items),
    decreases tokens.len(),
{
    if tokens.len() > 0 {
        let n = tokens.len() - 1;
        assert(describes(tokens[n].0, items[n].0));
        lemma_describes_text(tokens[n].0, items[n].0);
        assert(tokens_match(tokens.drop_last(), items.drop_last())) by {
            assert forall|i: int| 0 <= i < n implies describes(
                #[trigger] tokens.drop_last()[i].0,
                items.drop_last()[i].0,
            ) && tokens.drop_last()[i].1 == items.drop_last()[i].1 by {
                assert(describes(tokens[i].0, items[i].0));
            }
        }
        lemma_joined_tokens(tokens.drop_last(), items.drop_last());
    }
}

} // verus!
