//! Reading a word token as a list enumerator: an Arabic, Latin or Roman numeral.
use vstd::prelude::*;

use crate::source::chars_of;
use crate::tokens::Token;

verus! {

/// The letters `A` to `Z` and `a` to `z`.
pub open spec fn is_ascii_letter(c: char) -> bool {
    ('A' <= c <= 'Z') || ('a' <= c <= 'z')
}

/// The position of an ASCII letter in the alphabet, from 1 for `A` or `a`.
pub open spec fn alphabet_position(c: char) -> int {
    if 'A' <= c <= 'Z' {
        c as u32 - 'A' as u32 + 1
    } else {
        c as u32 - 'a' as u32 + 1
    }
}

/// What a Latin numeral, a single letter, counts: its place in the alphabet.
pub open spec fn latin_value(s: Seq<char>) -> Option<u64> {
    if s.len() == 1 && is_ascii_letter(s[0]) {
        Some(alphabet_position(s[0]) as u64)
    } else {
        None
    }
}

pub open spec fn is_ascii_digit(c: char) -> bool {
    '0' <= c <= '9'
}

/// The number written by the decimal digits `d`.
pub open spec fn digits_value(d: Seq<char>) -> nat
    decreases d.len(),
{
    if d.len() == 0 {
        0
    } else {
        digits_value(d.drop_last()) * 10 + (d.last() as u32 - '0' as u32) as nat
    }
}

/// The digits of an unsigned decimal numeral, after its optional `+` sign.
pub open spec fn unsigned_digits(s: Seq<char>) -> Seq<char> {
    if s.len() > 0 && s[0] == '+' {
        s.drop_first()
    } else {
        s
    }
}

/// The value of `s` read as an unsigned 64-bit decimal numeral: an optional `+`
/// followed by at least one digit, and nothing else, with a value that fits.
pub open spec fn unsigned_value(s: Seq<char>) -> Option<u64> {
    let d = unsigned_digits(s);
    if d.len() > 0 && (forall|i: int| 0 <= i < d.len() ==> is_ascii_digit(#[trigger] d[i]))
        && digits_value(d) <= u64::MAX {
        Some(digits_value(d) as u64)
    } else {
        None
    }
}

/// What an Arabic numeral counts; zero is no list enumerator and so no numeral.
pub open spec fn arabic_value(s: Seq<char>) -> Option<u64> {
    match unsigned_value(s) {
        Some(n) => if n == 0 {
            None
        } else {
            Some(n)
        },
        None => None,
    }
}

/// The rows of the Roman numeral table.
pub const ROMAN_ROWS: usize = 14;

/// The symbol of each row of the Roman numeral table, largest value first.
pub open spec fn roman_symbol(i: int) -> Seq<char> {
    if i == 0 { seq!['M', 'M', 'M', 'M'] }
    else if i == 1 { seq!['M'] }
    else if i == 2 { seq!['C', 'M'] }
    else if i == 3 { seq!['D'] }
    else if i == 4 { seq!['C', 'D'] }
    else if i == 5 { seq!['C'] }
    else if i == 6 { seq!['X', 'C'] }
    else if i == 7 { seq!['L'] }
    else if i == 8 { seq!['X', 'L'] }
    else if i == 9 { seq!['X'] }
    else if i == 10 { seq!['I', 'X'] }
    else if i == 11 { seq!['V'] }
    else if i == 12 { seq!['I', 'V'] }
    else { seq!['I'] }
}

/// How many rows a match of row `i` moves the table on by; zero keeps row `i`
/// available, so that its symbol may repeat.
pub open spec fn roman_skip(i: int) -> int {
    if i == 0 || i == 4 || i == 8 || i == 12 { 2 }
    else if i == 2 || i == 6 || i == 10 { 4 }
    else if i == 3 || i == 7 || i == 11 { 1 }
    else { 0 }
}

/// The value of the symbol of row `i`.
pub open spec fn roman_worth(i: int) -> int {
    if i == 0 { 4000 }
    else if i == 1 { 1000 }
    else if i == 2 { 900 }
    else if i == 3 { 500 }
    else if i == 4 { 400 }
    else if i == 5 { 100 }
    else if i == 6 { 90 }
    else if i == 7 { 50 }
    else if i == 8 { 40 }
    else if i == 9 { 10 }
    else if i == 10 { 9 }
    else if i == 11 { 5 }
    else if i == 12 { 4 }
    else { 1 }
}

/// `a` is a prefix of `b`.
pub open spec fn is_prefix(a: Seq<char>, b: Seq<char>) -> bool {
    a.len() <= b.len() && b.subrange(0, a.len() as int) == a
}

/// The first row, from row `p` on, whose symbol begins `w`; `ROMAN_ROWS` if none.
pub open spec fn first_row(w: Seq<char>, p: int) -> int
    decreases ROMAN_ROWS - p,
{
    if p >= ROMAN_ROWS {
        ROMAN_ROWS as int
    } else if is_prefix(roman_symbol(p), w) {
        p
    } else {
        first_row(w, p + 1)
    }
}

/// Reading the rest `w` of a Roman numeral, with the table from row `p` on, after
/// `count` consecutive matches of row `last` (`ROMAN_ROWS` for none) and a sum of
/// `total` so far. The first row from `p` whose symbol begins `w` is taken; a
/// symbol repeats at most three times, and only where its row keeps the table in
/// place. The numeral fails where nothing matches or where the sum is zero.
pub open spec fn roman_from(w: Seq<char>, p: int, last: int, count: int, total: int) -> Option<u64>
    decreases w.len(),
{
    if w.len() == 0 {
        if total != 0 {
            Some(total as u64)
        } else {
            None
        }
    } else {
        let i = first_row(w, p);
        if i >= ROMAN_ROWS || !is_prefix(roman_symbol(i), w) || roman_symbol(i).len() == 0 {
            None
        } else if i == last && (roman_skip(i) != 0 || count >= 3) {
            None
        } else {
            roman_from(
                w.subrange(roman_symbol(i).len() as int, w.len() as int),
                if roman_skip(i) == 0 { i } else { i + roman_skip(i) },
                i,
                if i == last { count + 1 } else { 1 },
                total + roman_worth(i),
            )
        }
    }
}

pub open spec fn is_ascii_lower(c: char) -> bool {
    'a' <= c <= 'z'
}

/// The upper-case form of a lower-case ASCII letter.
pub open spec fn ascii_upper(c: char) -> char {
    ((c as u32 - 32) as u8) as char
}

/// A word made only of lower-case ASCII letters is read in upper case; any other
/// word as it stands.
pub open spec fn roman_text(s: Seq<char>) -> Seq<char> {
    if forall|i: int| 0 <= i < s.len() ==> is_ascii_lower(#[trigger] s[i]) {
        Seq::new(s.len(), |i: int| ascii_upper(s[i]))
    } else {
        s
    }
}

/// What a Roman numeral counts.
pub open spec fn roman_value(s: Seq<char>) -> Option<u64> {
    roman_from(roman_text(s), 0, ROMAN_ROWS as int, 0, 0)
}

/// The Arabic reading of a token: only a word can be a numeral.
pub open spec fn arabic_reading(t: Token) -> Option<u64> {
    match t {
        Token::Word(w) => arabic_value(w@),
        _ => None,
    }
}

/// The Latin reading of a token.
pub open spec fn latin_reading(t: Token) -> Option<u64> {
    match t {
        Token::Word(w) => latin_value(w@),
        _ => None,
    }
}

/// The Roman reading of a token.
pub open spec fn roman_reading(t: Token) -> Option<u64> {
    match t {
        Token::Word(w) => roman_value(w@),
        _ => None,
    }
}

/// A numeral of any kind: Arabic first, then Latin, then Roman.
pub open spec fn numeral_reading(t: Token) -> Option<u64> {
    match arabic_reading(t) {
        Some(n) => Some(n),
        None => match latin_reading(t) {
            Some(n) => Some(n),
            None => roman_reading(t),
        },
    }
}

/// Three times the sum of the values of the rows before row `p`: a bound on the
/// sum of a numeral that has moved the table on to row `p`.
pub open spec fn roman_cap(p: int) -> int {
    if p <= 0 { 0 }
    else if p == 1 { 12000 }
    else if p == 2 { 15000 }
    else if p == 3 { 17700 }
    else if p == 4 { 19200 }
    else if p == 5 { 20400 }
    else if p == 6 { 20700 }
    else if p == 7 { 20970 }
    else if p == 8 { 21120 }
    else if p == 9 { 21240 }
    else if p == 10 { 21270 }
    else if p == 11 { 21297 }
    else if p == 12 { 21312 }
    else if p == 13 { 21324 }
    else { 21327 }
}

proof fn lemma_roman_cap_monotone(a: int, b: int)
    requires
        0 <= a <= b <= ROMAN_ROWS,
    ensures
        roman_cap(a) <= roman_cap(b),
    decreases b - a,
{
    if a < b {
        lemma_roman_cap_monotone(a + 1, b);
    }
}

/// The value of `s` read as an unsigned decimal numeral.
fn parse_unsigned(s: &Vec<char>) -> (r: Option<u64>)
    ensures
        r == unsigned_value(s@),
{
    let start: usize = if s.len() > 0 && s[0] == '+' { 1 } else { 0 };
    let ghost d = unsigned_digits(s@);
    assert(d =~= s@.subrange(start as int, s@.len() as int));
    if start >= s.len() {
        return None;
    }
    let mut acc: u64 = 0;
    let mut overflow = false;
    let mut i: usize = start;
    while i < s.len()
        invariant
            start <= i <= s.len(),
            d == unsigned_digits(s@),
            d == s@.subrange(start as int, s@.len() as int),
            forall|k: int| start <= k < i ==> is_ascii_digit(#[trigger] s@[k]),
            !overflow ==> acc == digits_value(s@.subrange(start as int, i as int)),
            overflow ==> digits_value(s@.subrange(start as int, i as int)) > u64::MAX,
        decreases s.len() - i,
    {
        let c = s[i];
        if !('0' <= c && c <= '9') {
            assert(d[i - start] == s@[i as int]);
            assert(!(forall|k: int| 0 <= k < d.len() ==> is_ascii_digit(#[trigger] d[k])));
            return None;
        }
        let digit = (c as u32 - '0' as u32) as u64;
        assert(s@.subrange(start as int, i + 1).drop_last() =~= s@.subrange(start as int, i as int));
        if !overflow {
            match acc.checked_mul(10) {
                Some(m) => match m.checked_add(digit) {
                    Some(n) => acc = n,
                    None => overflow = true,
                },
                None => overflow = true,
            }
        }
        i = i + 1;
    }
    assert(s@.subrange(start as int, i as int) =~= d);
    if overflow {
        None
    } else {
        Some(acc)
    }
}

/// A row of the Roman numeral table: its symbol, skip and value.
fn roman_row(i: usize) -> (r: (Vec<char>, usize, u64))
    requires
        i < ROMAN_ROWS,
    ensures
        r.0@ == roman_symbol(i as int),
        r.1 as int == roman_skip(i as int),
        r.2 as int == roman_worth(i as int),
{
    match i {
        0 => (vec!['M', 'M', 'M', 'M'], 2, 4000),
        1 => (vec!['M'], 0, 1000),
        2 => (vec!['C', 'M'], 4, 900),
        3 => (vec!['D'], 1, 500),
        4 => (vec!['C', 'D'], 2, 400),
        5 => (vec!['C'], 0, 100),
        6 => (vec!['X', 'C'], 4, 90),
        7 => (vec!['L'], 1, 50),
        8 => (vec!['X', 'L'], 2, 40),
        9 => (vec!['X'], 0, 10),
        10 => (vec!['I', 'X'], 4, 9),
        11 => (vec!['V'], 1, 5),
        12 => (vec!['I', 'V'], 2, 4),
        _ => (vec!['I'], 0, 1),
    }
}

/// Whether `symbol` occurs in `w` at position `pos`.
fn starts_with_at(w: &Vec<char>, pos: usize, symbol: &Vec<char>) -> (r: bool)
    requires
        pos <= w.len(),
    ensures
        r == is_prefix(symbol@, w@.subrange(pos as int, w@.len() as int)),
{
    let ghost rest = w@.subrange(pos as int, w@.len() as int);
    if symbol.len() > w.len() - pos {
        return false;
    }
    let mut k: usize = 0;
    while k < symbol.len()
        invariant
            k <= symbol.len(),
            symbol.len() <= w.len() - pos,
            rest == w@.subrange(pos as int, w@.len() as int),
            forall|j: int| 0 <= j < k ==> symbol@[j] == #[trigger] rest[j],
        decreases symbol.len() - k,
    {
        if w[pos + k] != symbol[k] {
            assert(rest.subrange(0, symbol@.len() as int)[k as int] != symbol@[k as int]);
            return false;
        }
        k = k + 1;
    }
    assert(rest.subrange(0, symbol@.len() as int) =~= symbol@);
    true
}

/// The word read in upper case where it is all lower-case ASCII letters.
fn roman_chars(word: &str) -> (r: Vec<char>)
    ensures
        r@ == roman_text(word@),
{
    let letters = chars_of(word);
    let mut i: usize = 0;
    while i < letters.len()
        invariant
            i <= letters.len(),
            letters@ == word@,
            forall|k: int| 0 <= k < i ==> is_ascii_lower(#[trigger] letters@[k]),
        decreases letters.len() - i,
    {
        let c = letters[i];
        if !('a' <= c && c <= 'z') {
            return letters;
        }
        i = i + 1;
    }
    let mut upper: Vec<char> = Vec::new();
    let mut j: usize = 0;
    while j < letters.len()
        invariant
            j <= letters.len(),
            letters@ == word@,
            forall|k: int| 0 <= k < letters.len() ==> is_ascii_lower(#[trigger] letters@[k]),
            upper@ =~= Seq::new(j as nat, |k: int| ascii_upper(letters@[k])),
        decreases letters.len() - j,
    {
        let c = letters[j];
        upper.push(((c as u32 - 32) as u8) as char);
        j = j + 1;
    }
    upper
}

/// The value of `word` read as a Roman numeral.
fn roman_numeral(word: &str) -> (r: Option<u64>)
    ensures
        r == roman_value(word@),
{
    let w = roman_chars(word);
    let mut pos: usize = 0;
    let mut p: usize = 0;
    let mut last: usize = ROMAN_ROWS;
    let mut count: u64 = 0;
    let mut total: u64 = 0;
    assert(w@.subrange(0, w@.len() as int) =~= w@);
    while pos < w.len()
        invariant
            pos <= w.len(),
            p <= ROMAN_ROWS,
            last <= ROMAN_ROWS,
            count <= 3,
            last < ROMAN_ROWS ==> last <= p,
            total <= roman_cap(p as int) + (if last == p && p < ROMAN_ROWS {
                count * roman_worth(p as int)
            } else {
                0
            }),
            roman_value(word@) == roman_from(
                w@.subrange(pos as int, w@.len() as int),
                p as int,
                last as int,
                count as int,
                total as int,
            ),
        decreases w.len() - pos,
    {
        let ghost rest = w@.subrange(pos as int, w@.len() as int);
        assert(0 <= roman_worth(p as int) <= 4000);
        assert(count * roman_worth(p as int) <= 12000) by (nonlinear_arith)
            requires
                count <= 3,
                0 <= roman_worth(p as int) <= 4000,
        ;
        let mut i: usize = p;
        while i < ROMAN_ROWS && !starts_with_at(&w, pos, &roman_row(i).0)
            invariant
                p <= i <= ROMAN_ROWS,
                pos < w.len(),
                rest == w@.subrange(pos as int, w@.len() as int),
                first_row(rest, p as int) == first_row(rest, i as int),
            decreases ROMAN_ROWS - i,
        {
            i = i + 1;
        }
        if i == ROMAN_ROWS {
            return None;
        }
        let (symbol, skip, worth) = roman_row(i);
        assert(symbol@.len() >= 1);
        if last == i {
            if skip != 0 || count >= 3 {
                return None;
            }
            assert((count + 1) * roman_worth(p as int) == count * roman_worth(p as int)
                + roman_worth(p as int)) by (nonlinear_arith);
            count = count + 1;
        } else {
            proof {
                if p < ROMAN_ROWS {
                    assert(roman_cap(p as int) + 3 * roman_worth(p as int) == roman_cap(p + 1));
                    assert(count * roman_worth(p as int) <= 3 * roman_worth(p as int))
                        by (nonlinear_arith)
                        requires
                            count <= 3,
                            0 <= roman_worth(p as int),
                    ;
                }
                if i > p {
                    lemma_roman_cap_monotone(p as int + 1, i as int);
                }
            }
            last = i;
            count = 1;
        }
        proof {
            if skip > 0 {
                lemma_roman_cap_monotone(i as int + 1, i as int + skip as int);
            }
        }
        total = total + worth;
        assert(w@.subrange(pos + symbol.len(), w@.len() as int) =~= rest.subrange(
            symbol@.len() as int,
            rest.len() as int,
        ));
        pos = pos + symbol.len();
        p = if skip == 0 { i } else { i + skip };
    }
    if total != 0 {
        Some(total)
    } else {
        None
    }
}


impl Token {
    /// Is any kind of numeral: Arabic, else Latin, else Roman. A single letter is
    /// read as Latin, so `C` counts three, not a hundred.
    pub fn from_numeral(&self) -> (r: Option<u64>)
        ensures
            r == numeral_reading(*self),
    {
        match self.from_arabic_numeral() {
            Some(n) => Some(n),
            None => match self.from_latin_numeral() {
                Some(n) => Some(n),
                None => self.from_roman_numeral(),
            },
        }
    }

    /// Is an Arabic numeral: a positive decimal number.
    pub fn from_arabic_numeral(&self) -> (r: Option<u64>)
        ensures
            r == arabic_reading(*self),
    {
        if let Token::Word(word) = self {
            match parse_unsigned(&chars_of(word.as_str())) {
                Some(number) => if number == 0 {
                    None
                } else {
                    Some(number)
                },
                None => None,
            }
        } else {
            None
        }
    }

    /// Is a Latin numeral: a single ASCII letter, counting its place in the alphabet.
    pub fn from_latin_numeral(&self) -> (r: Option<u64>)
        ensures
            r == latin_reading(*self),
    {
        if let Token::Word(word) = self {
            let letters = chars_of(word.as_str());
            if letters.len() != 1 {
                return None;
            }
            let letter = letters[0];
            if 'A' <= letter && letter <= 'Z' {
                Some((letter as u32 - 'A' as u32 + 1) as u64)
            } else if 'a' <= letter && letter <= 'z' {
                Some((letter as u32 - 'a' as u32 + 1) as u64)
            } else {
                None
            }
        } else {
            None
        }
    }

    /// Is a Roman numeral. A word of lower-case letters only is read in upper case;
    /// a word of mixed case is read as it stands.
    pub fn from_roman_numeral(&self) -> (r: Option<u64>)
        ensures
            r == roman_reading(*self),
    {
        if let Token::Word(word) = self {
            roman_numeral(word.as_str())
        } else {
            None
        }
    }
}

} // verus!
