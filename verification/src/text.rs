//! Small tools for text: numbers written out, lists cut into their pieces.

use vstd::prelude::*;
use vstd::string::StringExecFns;

verus! {

/// The character that stands for the digit `d`.
pub open spec fn digit_char(d: nat) -> char
    recommends
        d < 10,
{
    if d == 0 {
        '0'
    } else if d == 1 {
        '1'
    } else if d == 2 {
        '2'
    } else if d == 3 {
        '3'
    } else if d == 4 {
        '4'
    } else if d == 5 {
        '5'
    } else if d == 6 {
        '6'
    } else if d == 7 {
        '7'
    } else if d == 8 {
        '8'
    } else {
        '9'
    }
}

/// `n` in decimal notation, without leading zeros.
pub open spec fn decimal_text(n: nat) -> Seq<char>
    decreases n,
{
    if n < 10 {
        seq![digit_char(n)]
    } else {
        decimal_text(n / 10).push(digit_char(n % 10))
    }
}

/// The digit that `c` stands for.
pub open spec fn digit_value(c: char) -> nat {
    if c == '1' {
        1
    } else if c == '2' {
        2
    } else if c == '3' {
        3
    } else if c == '4' {
        4
    } else if c == '5' {
        5
    } else if c == '6' {
        6
    } else if c == '7' {
        7
    } else if c == '8' {
        8
    } else if c == '9' {
        9
    } else {
        0
    }
}

/// The number that `text` is the decimal notation of.
pub open spec fn decimal_value(text: Seq<char>) -> nat
    decreases text.len(),
{
    if text.len() == 0 {
        0
    } else {
        10 * decimal_value(text.drop_last()) + digit_value(text.last())
    }
}

/// The decimal notation of a number stands for that number, and starts with
/// a zero only where the number is zero.
pub proof fn lemma_decimal_reads_back(n: nat)
    ensures
        decimal_value(decimal_text(n)) == n,
        decimal_text(n).len() >= 1,
        decimal_text(n)[0] == '0' <==> n == 0,
    decreases n,
{
    let text = decimal_text(n);
    if n < 10 {
        assert(decimal_value(text.drop_last()) == 0);
    } else {
        lemma_decimal_reads_back(n / 10);
        assert(text.drop_last() =~= decimal_text(n / 10));
    }
}

/// `n` in decimal notation, with a leading zero where it has one digit only.
pub open spec fn padded_text(n: nat) -> Seq<char> {
    if n < 10 {
        seq!['0', digit_char(n)]
    } else {
        decimal_text(n)
    }
}

/// The digit `d` as a string of one character.
fn digit_str(d: u64) -> (s: &'static str)
    requires
        d < 10,
    ensures
        s@ == seq![digit_char(d as nat)],
{
    proof {
        reveal_strlit("0");
        reveal_strlit("1");
        reveal_strlit("2");
        reveal_strlit("3");
        reveal_strlit("4");
        reveal_strlit("5");
        reveal_strlit("6");
        reveal_strlit("7");
        reveal_strlit("8");
        reveal_strlit("9");
    }
    if d == 0 {
        "0"
    } else if d == 1 {
        "1"
    } else if d == 2 {
        "2"
    } else if d == 3 {
        "3"
    } else if d == 4 {
        "4"
    } else if d == 5 {
        "5"
    } else if d == 6 {
        "6"
    } else if d == 7 {
        "7"
    } else if d == 8 {
        "8"
    } else {
        "9"
    }
}

/// Writes `n` in decimal notation.
pub fn decimal(n: u64) -> (s: String)
    ensures
        s@ == decimal_text(n as nat),
    decreases n,
{
    if n < 10 {
        String::from_str(digit_str(n))
    } else {
        decimal(n / 10).concat(digit_str(n % 10))
    }
}

/// Writes `n` in decimal notation, two digits wide at least.
pub fn padded(n: u64) -> (s: String)
    ensures
        s@ == padded_text(n as nat),
{
    if n < 10 {
        proof {
            reveal_strlit("0");
        }
        String::from_str("0").concat(digit_str(n))
    } else {
        decimal(n)
    }
}

/// Whether `c` is white space to `char::is_whitespace`.
pub uninterp spec fn is_space(c: char) -> bool;

/// `text` in lower case, as `str::to_lowercase` writes it.
pub uninterp spec fn lowercase_text(text: Seq<char>) -> Seq<char>;

/// Asks `char::is_whitespace`.
///
/// Trusted: the answer is `is_space` of the character.
#[verifier::external_body]
fn is_whitespace(c: char) -> (space: bool)
    ensures
        space == is_space(c),
{
    c.is_whitespace()
}

/// Writes `text` in lower case with `str::to_lowercase`.
///
/// Trusted: the result is `lowercase_text` of the text.
#[verifier::external_body]
pub(crate) fn lowercase(text: &str) -> (lower: String)
    ensures
        lower@ == lowercase_text(text@),
{
    text.to_lowercase()
}

/// Whether `word` is one of `words`.
pub fn contains_text(words: &Vec<String>, word: &str) -> (found: bool)
    ensures
        found == words.deep_view().contains(word@),
{
    let wanted = word.to_owned();
    let ghost texts = words.deep_view();
    let mut i: usize = 0;
    while i < words.len()
        invariant
            i <= words.len(),
            wanted@ == word@,
            texts == words.deep_view(),
            forall|j: int| 0 <= j < i ==> texts[j] != word@,
        decreases words.len() - i,
    {
        if words[i] == wanted {
            assert(texts[i as int] == word@);
            return true;
        }
        i = i + 1;
    }
    false
}

/// The characters of `text`, one by one.
fn chars_of(text: &str) -> (chars: Vec<char>)
    ensures
        chars@ == text@,
{
    let mut chars: Vec<char> = Vec::new();
    for c in it: text.chars()
        invariant
            chars@ == it.seq().take(it.index() as int),
            it.seq() == text@,
    {
        chars.push(c);
    }
    chars
}

/// `text` without the white space at its start.
pub open spec fn trim_start_text(text: Seq<char>) -> Seq<char>
    decreases text.len(),
{
    if text.len() > 0 && is_space(text[0]) {
        trim_start_text(text.drop_first())
    } else {
        text
    }
}

/// `text` without the white space at its end.
pub open spec fn trim_end_text(text: Seq<char>) -> Seq<char>
    decreases text.len(),
{
    if text.len() > 0 && is_space(text.last()) {
        trim_end_text(text.drop_last())
    } else {
        text
    }
}

/// `text` without the white space at its start and at its end.
pub open spec fn trimmed_text(text: Seq<char>) -> Seq<char> {
    trim_end_text(trim_start_text(text))
}

/// The pieces of `text` that lie between the occurrences of `separator`. A
/// text without a separator is one piece, and so is an empty text.
pub open spec fn split_text(text: Seq<char>, separator: char) -> Seq<Seq<char>>
    decreases text.len(),
{
    if text.len() == 0 {
        seq![Seq::empty()]
    } else {
        let before = split_text(text.drop_last(), separator);
        if text.last() == separator {
            before.push(Seq::empty())
        } else {
            before.drop_last().push(before.last().push(text.last()))
        }
    }
}

/// `pieces` in a row, with `separator` between each two of them.
pub open spec fn joined_text(pieces: Seq<Seq<char>>, separator: char) -> Seq<char>
    decreases pieces.len(),
{
    if pieces.len() == 0 {
        Seq::empty()
    } else if pieces.len() == 1 {
        pieces[0]
    } else {
        joined_text(pieces.drop_last(), separator) + seq![separator] + pieces.last()
    }
}

/// `lines`, each on a line of its own.
pub open spec fn lines_text(lines: Seq<Seq<char>>) -> Seq<char> {
    joined_text(lines, '\n')
}

/// Splitting loses nothing: the pieces of a text, put in a row with the
/// separator between them, are the text; and no piece holds a separator.
pub proof fn lemma_split_joins_back(text: Seq<char>, separator: char)
    ensures
        split_text(text, separator).len() >= 1,
        joined_text(split_text(text, separator), separator) == text,
        forall|i: int, j: int|
            0 <= i < split_text(text, separator).len() && 0 <= j < split_text(
                text,
                separator,
            )[i].len() ==> #[trigger] split_text(text, separator)[i][j] != separator,
    decreases text.len(),
{
    if text.len() > 0 {
        let pieces = split_text(text, separator);
        let before = split_text(text.drop_last(), separator);
        lemma_split_joins_back(text.drop_last(), separator);
        if text.last() == separator {
            assert(pieces.drop_last() =~= before);
        } else {
            assert(pieces.drop_last() =~= before.drop_last());
            if before.len() > 1 {
                assert(joined_text(pieces, separator) =~= joined_text(before, separator).push(
                    text.last(),
                ));
            }
        }
    }
}

/// Skipping leading white space leaves what follows the first character that
/// is none.
proof fn lemma_trim_start(text: Seq<char>, from: int)
    requires
        0 <= from <= text.len(),
        forall|i: int| 0 <= i < from ==> is_space(#[trigger] text[i]),
        from < text.len() ==> !is_space(text[from]),
    ensures
        trim_start_text(text) == text.skip(from),
    decreases from,
{
    if from > 0 {
        let rest = text.drop_first();
        assert forall|i: int| 0 <= i < from - 1 implies is_space(#[trigger] rest[i]) by {}
        lemma_trim_start(rest, from - 1);
    }
}

/// Dropping trailing white space leaves what precedes the last character
/// that is none.
proof fn lemma_trim_end(text: Seq<char>, to: int)
    requires
        0 <= to <= text.len(),
        forall|i: int| to <= i < text.len() ==> is_space(#[trigger] text[i]),
        to > 0 ==> !is_space(text[to - 1]),
    ensures
        trim_end_text(text) == text.take(to),
    decreases text.len() - to,
{
    if to < text.len() {
        lemma_trim_end(text.drop_last(), to);
    }
}

/// The part of `chars` between `from` and `to` without the white space at
/// its two ends, as a pair of positions.
fn trim_bounds(chars: &Vec<char>, from: usize, to: usize) -> (bounds: (usize, usize))
    requires
        from <= to <= chars.len(),
    ensures
        from <= bounds.0 <= bounds.1 <= to,
        chars@.subrange(bounds.0 as int, bounds.1 as int) == trimmed_text(
            chars@.subrange(from as int, to as int),
        ),
{
    let ghost piece = chars@.subrange(from as int, to as int);
    let mut a = from;
    while a < to && is_whitespace(chars[a])
        invariant
            from <= a <= to <= chars.len(),
            piece == chars@.subrange(from as int, to as int),
            forall|i: int| 0 <= i < a - from ==> is_space(#[trigger] piece[i]),
        decreases to - a,
    {
        a = a + 1;
    }
    let ghost front = piece.skip(a - from);
    proof {
        lemma_trim_start(piece, a - from);
    }
    let mut b = to;
    while b > a && is_whitespace(chars[b - 1])
        invariant
            from <= a <= b <= to <= chars.len(),
            piece == chars@.subrange(from as int, to as int),
            front == piece.skip(a - from),
            forall|i: int| b - a <= i < front.len() ==> is_space(#[trigger] front[i]),
        decreases b,
    {
        b = b - 1;
    }
    proof {
        lemma_trim_end(front, b - a);
    }
    (a, b)
}

/// Cuts `text` at every `separator` and cuts the white space off the two
/// ends of each piece.
pub fn split_trimmed(text: &str, separator: char) -> (pieces: Vec<String>)
    ensures
        pieces.deep_view() == split_text(text@, separator).map_values(
            |piece: Seq<char>| trimmed_text(piece),
        ),
{
    let chars = chars_of(text);
    let n = chars.len();
    let mut pieces: Vec<String> = Vec::new();
    let mut start: usize = 0;
    let mut i: usize = 0;
    let ghost trimmed = |piece: Seq<char>| trimmed_text(piece);
    while i < n
        invariant
            start <= i <= n,
            n == chars.len(),
            chars@ == text@,
            trimmed == |piece: Seq<char>| trimmed_text(piece),
            split_text(text@.take(i as int), separator).len() == pieces.len() + 1,
            split_text(text@.take(i as int), separator).last() == text@.subrange(
                start as int,
                i as int,
            ),
            pieces.deep_view() == split_text(text@.take(i as int), separator).drop_last().map_values(
                trimmed,
            ),
        decreases n - i,
    {
        let ghost before = split_text(text@.take(i as int), separator);
        assert(text@.take(i + 1).drop_last() =~= text@.take(i as int));
        if chars[i] == separator {
            let (a, b) = trim_bounds(&chars, start, i);
            pieces.push(text.substring_char(a, b).to_owned());
            start = i + 1;
            proof {
                assert(before.map_values(trimmed) =~= before.drop_last().map_values(trimmed).push(
                    trimmed(before.last()),
                ));
                assert(pieces.deep_view() =~= before.map_values(trimmed));
            }
        }
        i = i + 1;
    }
    let ghost all = split_text(text@, separator);
    assert(text@.take(n as int) =~= text@);
    let (a, b) = trim_bounds(&chars, start, n);
    pieces.push(text.substring_char(a, b).to_owned());
    assert(all.map_values(trimmed) =~= all.drop_last().map_values(trimmed).push(
        trimmed(all.last()),
    ));
    pieces
}

} // verus!


