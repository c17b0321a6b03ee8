//! What trimming, lines, words, joining and numerals do to every text.
use vstd::prelude::*;

use crate::settings;
use crate::text;

verus! {

// ---- white space and case ----------------------------------------------------------------

/// White space is what Unicode lists as such, and nothing else.
pub proof fn white_space_is_what_unicode_lists(c: char)
    ensures
        text::white_space(c) <==> seq![
            '\u{9}',
            '\u{a}',
            '\u{b}',
            '\u{c}',
            '\u{d}',
            '\u{20}',
            '\u{85}',
            '\u{a0}',
            '\u{1680}',
            '\u{2000}',
            '\u{2001}',
            '\u{2002}',
            '\u{2003}',
            '\u{2004}',
            '\u{2005}',
            '\u{2006}',
            '\u{2007}',
            '\u{2008}',
            '\u{2009}',
            '\u{200a}',
            '\u{2028}',
            '\u{2029}',
            '\u{202f}',
            '\u{205f}',
            '\u{3000}',
        ].contains(c),
{
    let list = seq![
        '\u{9}',
        '\u{a}',
        '\u{b}',
        '\u{c}',
        '\u{d}',
        '\u{20}',
        '\u{85}',
        '\u{a0}',
        '\u{1680}',
        '\u{2000}',
        '\u{2001}',
        '\u{2002}',
        '\u{2003}',
        '\u{2004}',
        '\u{2005}',
        '\u{2006}',
        '\u{2007}',
        '\u{2008}',
        '\u{2009}',
        '\u{200a}',
        '\u{2028}',
        '\u{2029}',
        '\u{202f}',
        '\u{205f}',
        '\u{3000}',
    ];
    if text::white_space(c) {
        let u = c as u32;
        if u <= 0x0d {
            assert(list[u as int - 9] == c);
        } else if u == 0x20 {
            assert(list[5] == c);
        } else if u == 0x85 {
            assert(list[6] == c);
        } else if u == 0xa0 {
            assert(list[7] == c);
        } else if u == 0x1680 {
            assert(list[8] == c);
        } else if u <= 0x200a {
            assert(list[u as int - 0x2000 + 9] == c);
        } else if u == 0x2028 {
            assert(list[20] == c);
        } else if u == 0x2029 {
            assert(list[21] == c);
        } else if u == 0x202f {
            assert(list[22] == c);
        } else if u == 0x205f {
            assert(list[23] == c);
        } else {
            assert(list[24] == c);
        }
    }
}

proof fn lemma_dropped_is_white(s: Seq<char>, i: int, j: int)
    requires
        0 <= i <= j <= s.len(),
    ensures
        forall|k: int| text::drop_white(s, i, j) <= k < j ==> text::white_space(#[trigger] s[k]),
    decreases j - i,
{
    if i < j && text::white_space(s[j - 1]) {
        lemma_dropped_is_white(s, i, j - 1);
    }
}

/// Trimming takes away white space alone, at the two ends alone, and all of it there.
pub proof fn trimming_takes_the_white_space_around(s: Seq<char>)
    ensures
        exists|i: int, j: int|
            0 <= i <= j <= s.len() && text::trimmed(s) == #[trigger] s.subrange(i, j) && (forall|
                k: int,
            |
                0 <= k < i || j <= k < s.len() ==> text::white_space(#[trigger] s[k])),
        text::trimmed(s).len() > 0 ==> !text::white_space(text::trimmed(s)[0])
            && !text::white_space(text::trimmed(s).last()),
{
    let i = text::skip_white(s, 0);
    let j = text::drop_white(s, i, s.len() as int);
    text::lemma_skip_white(s, 0);
    text::lemma_drop_white(s, i, s.len() as int);
    lemma_dropped_is_white(s, i, s.len() as int);
    assert(text::trimmed(s) == s.subrange(i, j));
}

/// Lower case changes the letters from `A` to `Z` alone, each into the one thirty-two places
/// further on.
pub proof fn lower_case_changes_capital_letters_alone(s: Seq<char>, i: int)
    requires
        0 <= i < s.len(),
    ensures
        text::lowered(s).len() == s.len(),
        'A' <= s[i] <= 'Z' ==> text::lowered(s)[i] as u32 == s[i] as u32 + 32,
        !('A' <= s[i] <= 'Z') ==> text::lowered(s)[i] == s[i],
{
}

// ---- lines -------------------------------------------------------------------------------

proof fn lemma_index_shift(s: Seq<char>, c: char, i: int, j: int)
    requires
        0 <= i <= j <= s.len(),
    ensures
        text::index_from(s, c, j) == text::index_from(s.skip(i), c, j - i) + i,
    decreases s.len() - j,
{
    if j < s.len() {
        assert(s.skip(i)[j - i] == s[j]);
        if s[j] != c {
            lemma_index_shift(s, c, i, j + 1);
        }
    }
}

proof fn lemma_lines_shift(s: Seq<char>, i: int, j: int)
    requires
        0 <= i <= j <= s.len(),
    ensures
        text::lines_from(s, j) == text::lines_from(s.skip(i), j - i),
    decreases s.len() - j,
{
    if j < s.len() {
        let t = s.skip(i);
        let k = text::index_from(s, '\n', j);
        text::lemma_index_from(s, '\n', j);
        lemma_index_shift(s, '\n', i, j);
        assert(s.subrange(j, k) =~= t.subrange(j - i, k - i));
        if k < s.len() {
            lemma_lines_shift(s, i, k + 1);
        }
    }
}

/// A text without characters has no line, and one without a line feed is one line.
pub proof fn text_without_line_feed_is_one_line(s: Seq<char>)
    requires
        !s.contains('\n'),
    ensures
        text::lines(s) == if s.len() == 0 {
            Seq::<Seq<char>>::empty()
        } else {
            seq![s]
        },
{
    if s.len() > 0 {
        assert forall|k: int| 0 <= k < s.len() implies #[trigger] s[k] != '\n' by {
            assert(s.contains(s[k]));
        }
        text::lemma_index_is(s, '\n', 0, s.len() as int);
        assert(s.subrange(0, s.len() as int) =~= s);
    }
}

/// A line feed ends a line, with a carriage return before it or without one, and the lines of what
/// follows come behind that line.
pub proof fn line_feed_ends_a_line(line: Seq<char>, rest: Seq<char>)
    requires
        !line.contains('\n'),
    ensures
        text::lines(line + seq!['\r', '\n'] + rest) == seq![line] + text::lines(rest),
        line.len() == 0 || line.last() != '\r' ==> text::lines(line + seq!['\n'] + rest) == seq![
            line,
        ] + text::lines(rest),
{
    assert forall|k: int| 0 <= k < line.len() implies #[trigger] line[k] != '\n' by {
        assert(line.contains(line[k]));
    }
    let s = line + seq!['\r', '\n'] + rest;
    let n = line.len() as int;
    assert forall|k: int| 0 <= k < n + 1 implies #[trigger] s[k] != '\n' by {
        if k < n {
            assert(s[k] == line[k]);
        }
    }
    assert(s[n + 1] == '\n');
    text::lemma_index_is(s, '\n', 0, n + 1);
    assert(s.subrange(0, n + 1).drop_last() =~= line);
    assert(s.skip(n + 2) =~= rest);
    lemma_lines_shift(s, n + 2, n + 2);
    if line.len() == 0 || line.last() != '\r' {
        let t = line + seq!['\n'] + rest;
        assert forall|k: int| 0 <= k < n implies #[trigger] t[k] != '\n' by {
            assert(t[k] == line[k]);
        }
        assert(t[n] == '\n');
        text::lemma_index_is(t, '\n', 0, n);
        assert(t.subrange(0, n) =~= line);
        assert(t.skip(n + 1) =~= rest);
        lemma_lines_shift(t, n + 1, n + 1);
    }
}

// ---- words -------------------------------------------------------------------------------

/// Whether a text is one word: it holds characters, and no white space.
pub open spec fn is_word(s: Seq<char>) -> bool {
    s.len() > 0 && forall|k: int| 0 <= k < s.len() ==> !text::white_space(#[trigger] s[k])
}

proof fn lemma_dark_run(s: Seq<char>, i: int, j: int)
    requires
        0 <= i <= j <= s.len(),
        forall|k: int| i <= k < j ==> !text::white_space(#[trigger] s[k]),
        j < s.len() ==> text::white_space(s[j]),
    ensures
        text::skip_dark(s, i) == j,
    decreases j - i,
{
    if i < j {
        lemma_dark_run(s, i + 1, j);
    }
}

/// A word with a space and more behind it is the first word, and what follows begins there.
pub proof fn lemma_word_before_space(before: Seq<char>, word: Seq<char>, rest: Seq<char>)
    requires
        is_word(word),
        before.len() == 0 || before == seq![' '],
    ensures
        text::word_from(before + word + seq![' '] + rest, 0) == word,
        text::after_word(before + word + seq![' '] + rest, 0) == before.len() + word.len(),
{
    let s = before + word + seq![' '] + rest;
    let i = before.len() as int;
    let j = i + word.len();
    assert forall|k: int| i <= k < j implies !text::white_space(#[trigger] s[k]) by {
        assert(s[k] == word[k - i]);
    }
    assert(s[j] == ' ');
    assert(!text::white_space(s[i]));
    if i == 1 {
        assert(s[0] == ' ');
        assert(text::skip_white(s, 1) == 1);
        assert(text::skip_white(s, 0) == 1);
    } else {
        assert(text::skip_white(s, 0) == 0);
    }
    lemma_dark_run(s, i, j);
    assert(s.subrange(i, j) =~= word);
}

/// Where a word begins or ends does not depend on what stands before.
pub proof fn lemma_words_shift(s: Seq<char>, i: int, j: int)
    requires
        0 <= i <= j <= s.len(),
    ensures
        text::skip_white(s, j) == text::skip_white(s.skip(i), j - i) + i,
        text::skip_dark(s, j) == text::skip_dark(s.skip(i), j - i) + i,
    decreases s.len() - j,
{
    if j < s.len() {
        assert(s.skip(i)[j - i] == s[j]);
        lemma_words_shift(s, i, j + 1);
    }
}

// ---- joining and numerals ----------------------------------------------------------------

/// Joining puts the separator between each two texts, and nothing anywhere else.
pub proof fn joining_separates_each_two(parts: Seq<Seq<char>>, separator: Seq<char>, last: Seq<char>)
    ensures
        text::joined(Seq::<Seq<char>>::empty(), separator) == Seq::<char>::empty(),
        text::joined(seq![last], separator) == last,
        parts.len() > 0 ==> text::joined(parts.push(last), separator) == text::joined(
            parts,
            separator,
        ) + separator + last,
{
    if parts.len() > 0 {
        assert(parts.push(last).drop_last() =~= parts);
    }
}

/// The numeral of a number below ten is its digit, and that of a larger one is the numeral of its
/// tenth part with the digit of the rest behind it.
pub proof fn numerals_are_decimal(n: nat, d: nat)
    requires
        d < 10,
    ensures
        text::decimal(d) == seq!["0123456789"@[d as int]],
        n > 0 ==> text::decimal(10 * n + d) == text::decimal(n).push("0123456789"@[d as int]),
{
    reveal_strlit("0123456789");
    assert("0123456789"@[d as int] == text::digit(d)) by {
        assert(d == 0 || d == 1 || d == 2 || d == 3 || d == 4 || d == 5 || d == 6 || d == 7 || d
            == 8 || d == 9);
    }
    if n > 0 {
        assert((10 * n + d) / 10 == n);
        assert((10 * n + d) % 10 == d);
    }
}

/// A text that stands for a size is made of digits, perhaps behind one plus sign.
pub proof fn sizes_are_made_of_digits(s: Seq<char>, k: int)
    requires
        text::parsed_size(s) is Some,
        0 <= k < s.len(),
    ensures
        '0' <= s[k] <= '9' || (k == 0 && s[0] == '+' && s.len() > 1),
{
    let digits = text::without_plus(s);
    if s[0] == '+' {
        if k > 0 {
            assert(digits[k - 1] == s[k]);
            assert(text::is_digit(digits[k - 1]));
        }
    } else {
        assert(text::is_digit(digits[k]));
    }
}

proof fn lemma_value_of_take(s: Seq<char>, t: Seq<char>, i: int)
    requires
        0 <= i <= s.len(),
        i <= t.len(),
        forall|k: int| 0 <= k < i ==> s[k] == t[k],
    ensures
        text::value_of(s, i) == text::value_of(t, i),
    decreases i,
{
    if i > 0 {
        lemma_value_of_take(s, t, i - 1);
    }
}

/// A text that stands for a size stands for ten times as much and the digit with one more digit
/// behind it, as long as that fits.
pub proof fn sizes_are_decimal(s: Seq<char>, d: nat)
    requires
        text::parsed_size(s) is Some,
        d < 10,
        10 * text::parsed_size(s)->0 + d <= usize::MAX,
    ensures
        text::parsed_size(s.push("0123456789"@[d as int])) == Some(
            (10 * text::parsed_size(s)->0 + d) as usize,
        ),
{
    reveal_strlit("0123456789");
    let c = "0123456789"@[d as int];
    assert(c == text::digit(d)) by {
        assert(d == 0 || d == 1 || d == 2 || d == 3 || d == 4 || d == 5 || d == 6 || d == 7 || d
            == 8 || d == 9);
    }
    let before = text::without_plus(s);
    let after = text::without_plus(s.push(c));
    assert(after =~= before.push(c));
    lemma_value_of_take(before, after, before.len() as int);
    assert(after[after.len() - 1] == c);
    assert forall|k: int| 0 <= k < after.len() implies text::is_digit(#[trigger] after[k]) by {
        if k < before.len() {
            assert(text::is_digit(before[k]));
        }
    }
}

/// A plus sign before the digits changes nothing, and one alone stands for no size.
pub proof fn sizes_may_have_a_plus_sign(digits: Seq<char>)
    requires
        digits.len() == 0 || digits[0] != '+',
    ensures
        text::parsed_size(seq!['+'] + digits) == text::parsed_size(digits),
{
    assert((seq!['+'] + digits).skip(1) =~= digits);
}

/// A text whose digits stand for more than the largest size stands for none.
pub proof fn sizes_fit(s: Seq<char>, d: nat)
    requires
        text::parsed_size(s) is Some,
        d < 10,
        10 * text::parsed_size(s)->0 + d > usize::MAX,
    ensures
        text::parsed_size(s.push("0123456789"@[d as int])) is None,
{
    reveal_strlit("0123456789");
    let c = "0123456789"@[d as int];
    assert(c == text::digit(d)) by {
        assert(d == 0 || d == 1 || d == 2 || d == 3 || d == 4 || d == 5 || d == 6 || d == 7 || d
            == 8 || d == 9);
    }
    let before = text::without_plus(s);
    let after = text::without_plus(s.push(c));
    assert(after =~= before.push(c));
    lemma_value_of_take(before, after, before.len() as int);
    assert(after[after.len() - 1] == c);
}

/// One digit stands for its number, and a text without characters for none.
pub proof fn digits_are_sizes(d: nat)
    requires
        d < 10,
    ensures
        text::parsed_size(seq!["0123456789"@[d as int]]) == Some(d as usize),
        text::parsed_size(Seq::<char>::empty()) is None,
{
    numerals_are_decimal(0, d);
    text::decimal_reads_back(d as usize);
}

// ---- extra arguments ---------------------------------------------------------------------

/// Of one argument there is left what trimming leaves, and nothing where that is nothing. With the
/// law that two runs of arguments are normalized one by one, this says what is left of any.
pub proof fn normalizing_trims_one_argument(arg: Seq<char>)
    ensures
        settings::normalized(Seq::<Seq<char>>::empty()) == Seq::<Seq<char>>::empty(),
        text::trimmed(arg).len() > 0 ==> settings::normalized(seq![arg]) == seq![
            text::trimmed(arg),
        ],
        text::trimmed(arg).len() == 0 ==> settings::normalized(seq![arg]).len() == 0,
{
    let one = seq![arg];
    assert(one.drop_last() =~= Seq::<Seq<char>>::empty());
    assert(settings::normalized(one.drop_last()) =~= Seq::<Seq<char>>::empty());
    if text::trimmed(arg).len() > 0 {
        assert(Seq::<Seq<char>>::empty().push(text::trimmed(arg)) =~= seq![text::trimmed(arg)]);
    }
}

} // verus!
