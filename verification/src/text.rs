//! Text helpers: string comparison, concatenation, decimal rendering and
//! the splitting of a text into its first word and the rest.

use vstd::prelude::*;
use vstd::string::*;
use vstd::std_specs::iter::IteratorSpec;
use vstd::utf8::*;

verus! {

/// Whether two strings hold the same characters.
pub fn str_eq(a: &str, b: &str) -> (r: bool)
    ensures
        r == (a@ == b@),
{
    let x = a.as_bytes();
    let y = b.as_bytes();
    proof {
        encode_utf8_decode_utf8(a@);
        encode_utf8_decode_utf8(b@);
    }
    if x.len() != y.len() {
        return false;
    }
    let mut i: usize = 0;
    while i < x.len()
        invariant
            i <= x.len(),
            x.len() == y.len(),
            x@ == a.spec_bytes(),
            y@ == b.spec_bytes(),
            forall|j: int| 0 <= j < i ==> x@[j] == y@[j],
        decreases x.len() - i,
    {
        if x[i] != y[i] {
            return false;
        }
        i = i + 1;
    }
    assert(x@ =~= y@);
    true
}

/// The decimal digit `d` as a character.
pub open spec fn digit_char(d: nat) -> char
    recommends
        d < 10,
{
    (d + 48) as char
}

/// The decimal digits of `n`, most significant first, without leading zeros.
pub open spec fn decimal_digits(n: nat) -> Seq<char>
    decreases n,
{
    if n < 10 {
        seq![digit_char(n)]
    } else {
        decimal_digits(n / 10).push(digit_char(n % 10))
    }
}

/// The decimal text of an integer: a minus sign for a negative number, then
/// the digits of its magnitude.
pub open spec fn decimal_text(i: int) -> Seq<char> {
    if i < 0 {
        seq!['-'] + decimal_digits((-i) as nat)
    } else {
        decimal_digits(i as nat)
    }
}

fn digit_str(d: u64) -> (r: &'static str)
    requires
        d < 10,
    ensures
        r@ == seq![digit_char(d as nat)],
{
    proof {
        reveal_strlit("0");
        reveal_strlit("1");
        reveal_strlit("2");
        reveal_strlit("3");
        reveal_strlit("4");
        reveal_strlit("5");
        reveal_strlit("6");
        reveal_strlit("7");
        reveal_strlit("8");
        reveal_strlit("9");
    }
    let r = if d == 0 {
        "0"
    } else if d == 1 {
        "1"
    } else if d == 2 {
        "2"
    } else if d == 3 {
        "3"
    } else if d == 4 {
        "4"
    } else if d == 5 {
        "5"
    } else if d == 6 {
        "6"
    } else if d == 7 {
        "7"
    } else if d == 8 {
        "8"
    } else {
        "9"
    };
    assert(r@ =~= seq![digit_char(d as nat)]);
    r
}

fn push_digits(out: &mut String, n: u64)
    ensures
        final(out)@ == old(out)@ + decimal_digits(n as nat),
    decreases n,
{
    if n >= 10 {
        push_digits(out, n / 10);
    }
    out.append(digit_str(n % 10));
    assert(final(out)@ =~= old(out)@ + decimal_digits(n as nat));
}

/// Renders `i` in decimal.
pub fn int_to_string(i: i64) -> (r: String)
    ensures
        r@ == decimal_text(i as int),
{
    let mut out = String::new();
    if i < 0 {
        proof {
            reveal_strlit("-");
        }
        out.append("-");
        let magnitude: u64 = (-(i + 1)) as u64 + 1;
        push_digits(&mut out, magnitude);
        assert(out@ =~= decimal_text(i as int));
    } else {
        push_digits(&mut out, i as u64);
        assert(out@ =~= decimal_text(i as int));
    }
    out
}

/// The concatenation of two strings.
pub fn concat(a: &str, b: &str) -> (r: String)
    ensures
        r@ == a@ + b@,
{
    let mut out = a.to_owned();
    out.append(b);
    out
}

/// Whether `c` has the Unicode property White_Space.
pub open spec fn white_space(c: char) -> bool {
    let u = c as u32;
    ||| 0x09 <= u <= 0x0d
    ||| u == 0x20
    ||| u == 0x85
    ||| u == 0xa0
    ||| u == 0x1680
    ||| 0x2000 <= u <= 0x200a
    ||| u == 0x2028
    ||| u == 0x2029
    ||| u == 0x202f
    ||| u == 0x205f
    ||| u == 0x3000
}

/// Whether `c` has the Unicode property White_Space.
pub fn is_whitespace(c: char) -> (r: bool)
    ensures
        r == white_space(c),
{
    let u = c as u32;
    (0x09 <= u && u <= 0x0d) || u == 0x20 || u == 0x85 || u == 0xa0 || u == 0x1680 || (0x2000 <= u
        && u <= 0x200a) || u == 0x2028 || u == 0x2029 || u == 0x202f || u == 0x205f || u == 0x3000
}

/// What ends the first word of a text.
#[derive(Debug, Clone, Copy)]
pub enum Separator {
    /// Any character with the property White_Space.
    Whitespace,
    /// The given character.
    Char(char),
}

impl Separator {
    /// Whether `c` is a separator.
    pub open spec fn holds(self, c: char) -> bool {
        match self {
            Separator::Whitespace => white_space(c),
            Separator::Char(separator) => c == separator,
        }
    }

    /// Whether `c` is a separator.
    pub fn test(&self, c: char) -> (r: bool)
        ensures
            r == self.holds(c),
    {
        match self {
            Separator::Whitespace => is_whitespace(c),
            Separator::Char(separator) => c == *separator,
        }
    }
}

/// The index of the first separator in `text`, or the length of `text`
/// where it has none.
pub open spec fn first_separator(text: Seq<char>, separator: Separator) -> int
    decreases text.len(),
{
    if text.len() == 0 {
        0
    } else if separator.holds(text[0]) {
        0
    } else {
        1 + first_separator(text.drop_first(), separator)
    }
}

/// `text` without the whitespace that it starts with.
pub open spec fn trim_start(text: Seq<char>) -> Seq<char>
    decreases text.len(),
{
    if text.len() > 0 && white_space(text[0]) {
        trim_start(text.drop_first())
    } else {
        text
    }
}

/// The first word of `text` and what follows it: the word ends before the
/// first separator, and the rest starts after that separator and after
/// the whitespace that follows it. There is no rest where nothing is left.
pub open spec fn split(text: Seq<char>, separator: Separator) -> (Seq<char>, Option<Seq<char>>) {
    let i = first_separator(text, separator);
    if i < text.len() {
        let rest = trim_start(text.skip(i + 1));
        (
            text.take(i),
            if rest.len() == 0 {
                None
            } else {
                Some(rest)
            },
        )
    } else {
        (text, None)
    }
}

/// The first separator is where a separator stands with none before it.
pub proof fn lemma_first_separator(text: Seq<char>, separator: Separator, i: int)
    requires
        0 <= i <= text.len(),
        forall|j: int| 0 <= j < i ==> !separator.holds(text[j]),
        i < text.len() ==> separator.holds(text[i]),
    ensures
        first_separator(text, separator) == i,
    decreases i,
{
    if i > 0 {
        let tail = text.drop_first();
        assert forall|j: int| 0 <= j < i - 1 implies !separator.holds(tail[j]) by {
            assert(tail[j] == text[j + 1]);
        }
        lemma_first_separator(tail, separator, i - 1);
    }
}

/// Trimming drops exactly the whitespace before the first character that
/// is none.
pub proof fn lemma_trim_start(text: Seq<char>, i: int)
    requires
        0 <= i <= text.len(),
        forall|j: int| 0 <= j < i ==> white_space(text[j]),
        i < text.len() ==> !white_space(text[i]),
    ensures
        trim_start(text) == text.skip(i),
    decreases i,
{
    if i > 0 {
        let tail = text.drop_first();
        assert forall|j: int| 0 <= j < i - 1 implies white_space(tail[j]) by {
            assert(tail[j] == text[j + 1]);
        }
        lemma_trim_start(tail, i - 1);
        assert(tail.skip(i - 1) =~= text.skip(i));
    } else {
        assert(text.skip(0) =~= text);
    }
}

/// The number of characters of `text`, the index of its first separator
/// (the number of characters where there is none), and the index of the
/// first character after that separator that is no whitespace (the number
/// of characters where there is none).
fn scan(text: &str, separator: &Separator) -> (r: (usize, usize, usize))
    ensures
        r.0 == text@.len(),
        r.1 == first_separator(text@, *separator),
        r.1 < r.0 ==> r.1 < r.2 <= r.0 && text@.skip(r.2 as int) == trim_start(
            text@.skip(r.1 + 1),
        ),
{
    let length = text.unicode_len();
    let mut index: usize = 0;
    let mut word_end: usize = length;
    let mut rest_start: usize = length;
    let mut in_word = true;
    let mut in_gap = false;
    for c in it: text.chars()
        invariant
            length == text@.len(),
            it.seq() == text@,
            index == it.index(),
            in_word ==> !in_gap && word_end == length && rest_start == length && forall|j: int|
                0 <= j < index ==> !separator.holds(text@[j]),
            !in_word ==> word_end < index && separator.holds(text@[word_end as int]) && forall|
                j: int,
            | 0 <= j < word_end ==> !separator.holds(text@[j]),
            in_gap ==> !in_word && rest_start == length && forall|j: int|
                word_end < j < index ==> white_space(text@[j]),
            !in_word && !in_gap ==> word_end < rest_start < index && !white_space(
                text@[rest_start as int],
            ) && forall|j: int| word_end < j < rest_start ==> white_space(text@[j]),
    {
        if in_word {
            if separator.test(c) {
                word_end = index;
                in_word = false;
                in_gap = true;
            }
        } else if in_gap {
            if !is_whitespace(c) {
                rest_start = index;
                in_gap = false;
            }
        }
        index = index + 1;
    }
    proof {
        lemma_first_separator(text@, *separator, word_end as int);
        if word_end < length {
            let after = text@.skip(word_end + 1);
            let gap = rest_start - word_end - 1;
            assert forall|j: int| 0 <= j < gap implies white_space(after[j]) by {
                assert(after[j] == text@[word_end + 1 + j]);
            }
            lemma_trim_start(after, gap);
            assert(after.skip(gap) =~= text@.skip(rest_start as int));
        }
    }
    (length, word_end, rest_start)
}

/// Splits `text` into its first word and the rest. The text must not be
/// empty.
pub fn split_first_word<'a>(text: &'a str, separator: Separator) -> (r: (&'a str, Option<&'a str>))
    requires
        text@.len() > 0,
    ensures
        r.0@ == split(text@, separator).0,
        match r.1 {
            Some(rest) => Some(rest@),
            None => None,
        } == split(text@, separator).1,
{
    let (length, word_end, rest_start) = scan(text, &separator);
    if word_end < length {
        let first_word = text.substring_char(0, word_end);
        if rest_start < length {
            let rest = text.substring_char(rest_start, length);
            assert(text@.subrange(rest_start as int, length as int) =~= text@.skip(
                rest_start as int,
            ));
            (first_word, Some(rest))
        } else {
            (first_word, None)
        }
    } else {
        (text, None)
    }
}

/// The first word of a text that does not start with a separator is not
/// empty.
pub proof fn lemma_split_word(text: Seq<char>, separator: Separator)
    requires
        text.len() > 0,
        !separator.holds(text[0]),
    ensures
        split(text, separator).0.len() > 0,
        split(text, separator).0[0] == text[0],
{
    let i = first_separator(text, separator);
    lemma_first_separator_bounds(text, separator);
}

/// The index of the first separator lies within the text or at its end,
/// a separator stands there unless it is the end, and none stands before.
pub proof fn lemma_first_separator_bounds(text: Seq<char>, separator: Separator)
    ensures
        0 <= first_separator(text, separator) <= text.len(),
        first_separator(text, separator) < text.len() ==> separator.holds(
            text[first_separator(text, separator)],
        ),
        forall|j: int|
            0 <= j < first_separator(text, separator) ==> !separator.holds(#[trigger] text[j]),
    decreases text.len(),
{
    if text.len() > 0 && !separator.holds(text[0]) {
        let tail = text.drop_first();
        lemma_first_separator_bounds(tail, separator);
        assert forall|j: int| 0 <= j < first_separator(text, separator) implies !separator.holds(
            #[trigger] text[j],
        ) by {
            if j > 0 {
                assert(text[j] == tail[j - 1]);
            }
        }
    }
}

} // verus!
