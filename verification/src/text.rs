//! Text as sequences of characters: trimming, searching, splitting and decimal numerals.
use vstd::prelude::*;

verus! {

/// `String::push` puts its character behind the text.
pub assume_specification[ String::push ](s: &mut String, ch: char)
    ensures
        final(s)@ == old(s)@.push(ch),
;

/// The characters of a text.
pub fn chars_of(text: &str) -> (r: Vec<char>)
    ensures
        r@ == text@,
{
    let mut r: Vec<char> = Vec::new();
    for c in it: text.chars()
        invariant
            r@ == it.seq().take(it.index() as int),
    {
        r.push(c);
    }
    r
}

/// The text made of the given characters.
pub fn string_of(chars: &[char]) -> (r: String)
    ensures
        r@ == chars@,
{
    let mut r = String::new();
    for i in 0..chars.len()
        invariant
            r@ == chars@.take(i as int),
    {
        r.push(chars[i]);
        assert(chars@.take(i + 1) == chars@.take(i as int).push(chars@[i as int]));
    }
    assert(chars@.take(chars@.len() as int) == chars@);
    r
}

/// The text made of the characters from `from` up to, not with, `to`.
pub fn string_of_range(chars: &[char], from: usize, to: usize) -> (r: String)
    requires
        from <= to <= chars@.len(),
    ensures
        r@ == chars@.subrange(from as int, to as int),
{
    let mut r = String::new();
    for i in from..to
        invariant
            from <= to <= chars@.len(),
            r@ == chars@.subrange(from as int, i as int),
    {
        r.push(chars[i]);
        assert(chars@.subrange(from as int, i + 1) == chars@.subrange(from as int, i as int).push(
            chars@[i as int],
        ));
    }
    r
}

/// Whether two texts are the same.
pub fn same_text(a: &str, b: &str) -> (r: bool)
    ensures
        r == (a@ == b@),
{
    let left: Vec<char> = chars_of(a);
    let right: Vec<char> = chars_of(b);
    if left.len() != right.len() {
        return false;
    }
    for i in 0..left.len()
        invariant
            left@ == a@,
            right@ == b@,
            left@.len() == right@.len(),
            left@.take(i as int) == right@.take(i as int),
    {
        if left[i] != right[i] {
            assert(a@[i as int] != b@[i as int]);
            return false;
        }
        assert(left@.take(i + 1) == left@.take(i as int).push(left@[i as int]));
        assert(right@.take(i + 1) == right@.take(i as int).push(right@[i as int]));
    }
    assert(left@.take(left@.len() as int) == left@);
    assert(right@.take(right@.len() as int) == right@);
    true
}

/// Whether `text` begins with `prefix`.
pub fn starts_with(text: &str, prefix: &str) -> (r: bool)
    ensures
        r == prefix@.is_prefix_of(text@),
{
    let whole: Vec<char> = chars_of(text);
    let head: Vec<char> = chars_of(prefix);
    if head.len() > whole.len() {
        return false;
    }
    for i in 0..head.len()
        invariant
            whole@ == text@,
            head@ == prefix@,
            head@.len() <= whole@.len(),
            forall|k: int| 0 <= k < i ==> head@[k] == whole@[k],
    {
        if head[i] != whole[i] {
            assert(prefix@[i as int] != text@.subrange(0, prefix@.len() as int)[i as int]);
            return false;
        }
    }
    assert(prefix@ =~= text@.subrange(0, prefix@.len() as int));
    true
}

// ---- white space -------------------------------------------------------------------------

/// The characters with Unicode's `White_Space` property.
pub open spec fn white_space(c: char) -> bool {
    let u = c as u32;
    ||| 0x09 <= u <= 0x0d
    ||| u == 0x20
    ||| u == 0x85
    ||| u == 0xa0
    ||| u == 0x1680
    ||| 0x2000 <= u <= 0x200a
    ||| u == 0x2028
    ||| u == 0x2029
    ||| u == 0x202f
    ||| u == 0x205f
    ||| u == 0x3000
}

/// Whether a character is white space.
pub fn is_white_space(c: char) -> (r: bool)
    ensures
        r == white_space(c),
{
    let u: u32 = c as u32;
    (0x09 <= u && u <= 0x0d) || u == 0x20 || u == 0x85 || u == 0xa0 || u == 0x1680 || (0x2000 <= u
        && u <= 0x200a) || u == 0x2028 || u == 0x2029 || u == 0x202f || u == 0x205f || u == 0x3000
}

/// The first position from `i` on that holds no white space, or the length.
pub open spec fn skip_white(s: Seq<char>, i: int) -> int
    decreases s.len() - i,
{
    if 0 <= i < s.len() && white_space(s[i]) {
        skip_white(s, i + 1)
    } else {
        i
    }
}

/// The first position from `i` on that holds white space, or the length.
pub open spec fn skip_dark(s: Seq<char>, i: int) -> int
    decreases s.len() - i,
{
    if 0 <= i < s.len() && !white_space(s[i]) {
        skip_dark(s, i + 1)
    } else {
        i
    }
}

/// The end of what is left of the first `j` characters without trailing white space, at least
/// `i`.
pub open spec fn drop_white(s: Seq<char>, i: int, j: int) -> int
    decreases j - i,
{
    if i < j && white_space(s[j - 1]) {
        drop_white(s, i, j - 1)
    } else {
        j
    }
}

/// A text without the white space around it.
pub open spec fn trimmed(s: Seq<char>) -> Seq<char> {
    let from = skip_white(s, 0);
    s.subrange(from, drop_white(s, from, s.len() as int))
}

pub proof fn lemma_skip_white(s: Seq<char>, i: int)
    requires
        0 <= i <= s.len(),
    ensures
        i <= skip_white(s, i) <= s.len(),
        forall|k: int| i <= k < skip_white(s, i) ==> white_space(#[trigger] s[k]),
        skip_white(s, i) < s.len() ==> !white_space(s[skip_white(s, i)]),
    decreases s.len() - i,
{
    if i < s.len() && white_space(s[i]) {
        lemma_skip_white(s, i + 1);
    }
}

pub proof fn lemma_drop_white(s: Seq<char>, i: int, j: int)
    requires
        0 <= i <= j <= s.len(),
    ensures
        i <= drop_white(s, i, j) <= j,
        i < drop_white(s, i, j) ==> !white_space(s[drop_white(s, i, j) - 1]),
    decreases j - i,
{
    if i < j && white_space(s[j - 1]) {
        lemma_drop_white(s, i, j - 1);
    }
}

/// Trimming a trimmed text changes nothing.
pub proof fn trim_is_idempotent(s: Seq<char>)
    ensures
        trimmed(trimmed(s)) == trimmed(s),
{
    let from = skip_white(s, 0);
    let to = drop_white(s, from, s.len() as int);
    lemma_skip_white(s, 0);
    lemma_drop_white(s, from, s.len() as int);
    let t = trimmed(s);
    if t.len() > 0 {
        assert(t[0] == s[from]);
        assert(t[t.len() - 1] == s[to - 1]);
        assert(skip_white(t, 0) == 0);
        assert(drop_white(t, 0, t.len() as int) == t.len());
        assert(t.subrange(0, t.len() as int) == t);
    } else {
        assert(skip_white(t, 0) == 0);
        assert(drop_white(t, 0, 0) == 0);
        assert(t.subrange(0, 0) =~= t);
    }
}

/// A text with no white space at its ends is left as it is.
pub proof fn lemma_trimmed_stays(s: Seq<char>)
    requires
        s.len() > 0,
        !white_space(s[0]),
        !white_space(s.last()),
    ensures
        trimmed(s) == s,
{
    assert(skip_white(s, 0) == 0);
    assert(drop_white(s, 0, s.len() as int) == s.len());
    assert(s.subrange(0, s.len() as int) =~= s);
}

/// One space before a text with no white space at its ends is trimmed away.
pub proof fn lemma_trimmed_after_space(s: Seq<char>)
    requires
        s.len() > 0,
        !white_space(s[0]),
        !white_space(s.last()),
    ensures
        trimmed(seq![' '] + s) == s,
{
    let t = seq![' '] + s;
    assert(t[0] == ' ' && t[1] == s[0]);
    assert(skip_white(t, 1) == 1);
    assert(skip_white(t, 0) == 1);
    assert(t[t.len() - 1] == s.last());
    assert(drop_white(t, 1, t.len() as int) == t.len());
    assert(t.subrange(1, t.len() as int) =~= s);
}

/// What is left of a text that begins with no white space begins as the text does.
pub proof fn lemma_trimmed_head(s: Seq<char>)
    requires
        s.len() > 0,
        !white_space(s[0]),
    ensures
        trimmed(s).len() > 0,
        trimmed(s)[0] == s[0],
{
    assert(skip_white(s, 0) == 0);
    lemma_drop_white(s, 0, s.len() as int);
    lemma_drop_white_keeps(s, 0, s.len() as int, 0);
}

proof fn lemma_drop_white_keeps(s: Seq<char>, i: int, j: int, k: int)
    requires
        0 <= i <= k < j <= s.len(),
        !white_space(s[k]),
    ensures
        drop_white(s, i, j) > k,
    decreases j,
{
    if white_space(s[j - 1]) {
        lemma_drop_white_keeps(s, i, j - 1, k);
    }
}

/// The text without the white space around it.
pub fn trim(text: &str) -> (r: String)
    ensures
        r@ == trimmed(text@),
{
    let chars: Vec<char> = chars_of(text);
    let mut from: usize = 0;
    while from < chars.len() && is_white_space(chars[from])
        invariant
            from <= chars@.len(),
            skip_white(chars@, from as int) == skip_white(chars@, 0),
        decreases chars@.len() - from,
    {
        from = from + 1;
    }
    let mut to: usize = chars.len();
    while to > from && is_white_space(chars[to - 1])
        invariant
            from <= to <= chars@.len(),
            drop_white(chars@, from as int, to as int) == drop_white(
                chars@,
                from as int,
                chars@.len() as int,
            ),
        decreases to,
    {
        to = to - 1;
    }
    string_of_range(chars.as_slice(), from, to)
}

// ---- ASCII case --------------------------------------------------------------------------

/// A character, an upper-case ASCII letter turned into the lower-case one.
pub open spec fn lower(c: char) -> char {
    if 'A' <= c <= 'Z' {
        (c as u32 + 32) as char
    } else {
        c
    }
}

/// A text with each upper-case ASCII letter turned into the lower-case one.
pub open spec fn lowered(s: Seq<char>) -> Seq<char> {
    Seq::new(s.len(), |i: int| lower(s[i]))
}

/// The character, an upper-case ASCII letter turned into the lower-case one.
pub fn to_lower(c: char) -> (r: char)
    ensures
        r == lower(c),
{
    if 'A' <= c && c <= 'Z' {
        let raised: u8 = (c as u8) + 32;
        raised as char
    } else {
        c
    }
}

/// The text with each upper-case ASCII letter turned into the lower-case one.
pub fn to_ascii_lowercase(text: &str) -> (r: String)
    ensures
        r@ == lowered(text@),
{
    let chars: Vec<char> = chars_of(text);
    let mut r = String::new();
    for i in 0..chars.len()
        invariant
            chars@ == text@,
            r@ == lowered(text@).take(i as int),
    {
        r.push(to_lower(chars[i]));
        assert(lowered(text@).take(i + 1) == lowered(text@).take(i as int).push(
            lowered(text@)[i as int],
        ));
    }
    assert(lowered(text@).take(text@.len() as int) == lowered(text@));
    r
}

/// Whether two texts differ at most in the case of ASCII letters.
pub fn eq_ignore_ascii_case(a: &str, b: &str) -> (r: bool)
    ensures
        r == (lowered(a@) == lowered(b@)),
{
    let left: String = to_ascii_lowercase(a);
    let right: String = to_ascii_lowercase(b);
    same_text(left.as_str(), right.as_str())
}

// ---- searching ---------------------------------------------------------------------------

/// The first position from `i` on that holds `c`, or the length.
pub open spec fn index_from(s: Seq<char>, c: char, i: int) -> int
    decreases s.len() - i,
{
    if 0 <= i < s.len() && s[i] != c {
        index_from(s, c, i + 1)
    } else {
        i
    }
}

pub proof fn lemma_index_from(s: Seq<char>, c: char, i: int)
    requires
        0 <= i <= s.len(),
    ensures
        i <= index_from(s, c, i) <= s.len(),
        forall|k: int| i <= k < index_from(s, c, i) ==> #[trigger] s[k] != c,
        index_from(s, c, i) < s.len() ==> s[index_from(s, c, i)] == c,
    decreases s.len() - i,
{
    if i < s.len() && s[i] != c {
        lemma_index_from(s, c, i + 1);
    }
}

/// A position that holds the character, with none before it, is the one that is found.
pub proof fn lemma_index_is(s: Seq<char>, c: char, i: int, at: int)
    requires
        0 <= i <= at <= s.len(),
        forall|k: int| i <= k < at ==> #[trigger] s[k] != c,
        at < s.len() ==> s[at] == c,
    ensures
        index_from(s, c, i) == at,
{
    lemma_index_from(s, c, i);
    let found = index_from(s, c, i);
    if found < at {
        assert(s[found] != c);
    } else if at < found {
        assert(s[at] != c);
    }
}

/// The first position from `from` on that holds `c`, or the length.
pub fn find_char(chars: &[char], c: char, from: usize) -> (r: usize)
    requires
        from <= chars@.len(),
    ensures
        r == index_from(chars@, c, from as int),
        from <= r <= chars@.len(),
        r < chars@.len() ==> chars@[r as int] == c,
{
    let mut i: usize = from;
    while i < chars.len() && chars[i] != c
        invariant
            from <= i <= chars@.len(),
            index_from(chars@, c, i as int) == index_from(chars@, c, from as int),
        decreases chars@.len() - i,
    {
        i = i + 1;
    }
    i
}

/// Whether `part` stands in `s` at position `i`.
pub open spec fn stands_at<T>(s: Seq<T>, part: Seq<T>, i: int) -> bool {
    0 <= i && i + part.len() <= s.len() && s.subrange(i, i + part.len()) == part
}

/// The first position from `i` on at which `part` stands in `s`, if there is one.
pub open spec fn find_from<T>(s: Seq<T>, part: Seq<T>, i: int) -> Option<int>
    decreases s.len() + 1 - i,
{
    if i < 0 || i + part.len() > s.len() {
        None
    } else if stands_at(s, part, i) {
        Some(i)
    } else {
        find_from(s, part, i + 1)
    }
}

pub proof fn lemma_find_from<T>(s: Seq<T>, part: Seq<T>, i: int)
    requires
        0 <= i,
    ensures
        match find_from(s, part, i) {
            Some(at) => {
                &&& i <= at
                &&& stands_at(s, part, at)
                &&& forall|k: int| i <= k < at ==> !stands_at(s, part, k)
            },
            None => forall|k: int| i <= k ==> !stands_at(s, part, k),
        },
    decreases s.len() + 1 - i,
{
    if i + part.len() <= s.len() && !stands_at(s, part, i) {
        lemma_find_from(s, part, i + 1);
    }
}

/// A position at which `part` stands, with none before it, is the one that is found.
pub proof fn lemma_find_is<T>(s: Seq<T>, part: Seq<T>, i: int, at: int)
    requires
        0 <= i <= at,
        stands_at(s, part, at),
        forall|k: int| i <= k < at ==> !stands_at(s, part, k),
    ensures
        find_from(s, part, i) == Some(at),
{
    lemma_find_from(s, part, i);
}

// ---- lines -------------------------------------------------------------------------------

/// A line that a line feed ended, without the carriage return before the line feed.
pub open spec fn without_return(line: Seq<char>) -> Seq<char> {
    if line.len() > 0 && line.last() == '\r' {
        line.drop_last()
    } else {
        line
    }
}

/// The lines of a text from position `i` on. A line ends with a line feed, or a carriage return
/// and a line feed, or with the text.
pub open spec fn lines_from(s: Seq<char>, i: int) -> Seq<Seq<char>>
    decreases s.len() - i,
{
    if i < 0 || i >= s.len() {
        seq![]
    } else {
        let j = index_from(s, '\n', i);
        proof {
            lemma_index_from(s, '\n', i);
        }
        if j < s.len() {
            seq![without_return(s.subrange(i, j))] + lines_from(s, j + 1)
        } else {
            seq![s.subrange(i, j)]
        }
    }
}

/// The lines of a text.
pub open spec fn lines(s: Seq<char>) -> Seq<Seq<char>> {
    lines_from(s, 0)
}

/// The lines of a text.
pub fn lines_of(text: &str) -> (r: Vec<String>)
    ensures
        r.deep_view() == lines(text@),
{
    let chars: Vec<char> = chars_of(text);
    let mut r: Vec<String> = Vec::new();
    let mut i: usize = 0;
    assert(r.deep_view() =~= seq![]);
    assert(r.deep_view() + lines_from(chars@, 0) =~= lines(text@));
    while i < chars.len()
        invariant
            chars@ == text@,
            i <= chars@.len(),
            r.deep_view() + lines_from(chars@, i as int) == lines(text@),
        decreases chars@.len() - i,
    {
        let ghost before = r.deep_view();
        let j: usize = find_char(chars.as_slice(), '\n', i);
        let mut to: usize = j;
        if j < chars.len() && j > i && chars[j - 1] == '\r' {
            to = j - 1;
        }
        let line: String = string_of_range(chars.as_slice(), i, to);
        proof {
            let raw = chars@.subrange(i as int, j as int);
            if j < chars@.len() {
                if raw.len() > 0 {
                    assert(raw.last() == chars@[j - 1]);
                }
                assert(line@ =~= without_return(raw));
            }
        }
        r.push(line);
        assert(r.deep_view() =~= before.push(line@));
        let ghost head = seq![line@];
        if j < chars.len() {
            i = j + 1;
            assert(before + (head + lines_from(chars@, i as int)) =~= r.deep_view() + lines_from(
                chars@,
                i as int,
            ));
        } else {
            i = j;
            assert(before + head =~= r.deep_view() + lines_from(chars@, i as int));
        }
    }
    assert(r.deep_view() + lines_from(chars@, i as int) =~= r.deep_view());
    r
}

// ---- words -------------------------------------------------------------------------------

/// The first word from position `i` on; empty where there is none.
pub open spec fn word_from(s: Seq<char>, i: int) -> Seq<char> {
    let from = skip_white(s, i);
    s.subrange(from, skip_dark(s, from))
}

/// The position behind the first word from position `i` on.
pub open spec fn after_word(s: Seq<char>, i: int) -> int {
    skip_dark(s, skip_white(s, i))
}

/// The first word from position `i` on, with the position behind it.
pub fn next_word(chars: &[char], i: usize) -> (r: (String, usize))
    requires
        i <= chars@.len(),
    ensures
        r.0@ == word_from(chars@, i as int),
        r.1 == after_word(chars@, i as int),
        r.1 <= chars@.len(),
{
    let mut from: usize = i;
    while from < chars.len() && is_white_space(chars[from])
        invariant
            from <= chars@.len(),
            skip_white(chars@, from as int) == skip_white(chars@, i as int),
        decreases chars@.len() - from,
    {
        from = from + 1;
    }
    let mut to: usize = from;
    while to < chars.len() && !is_white_space(chars[to])
        invariant
            from <= to <= chars@.len(),
            skip_dark(chars@, to as int) == skip_dark(chars@, from as int),
        decreases chars@.len() - to,
    {
        to = to + 1;
    }
    (string_of_range(chars, from, to), to)
}

// ---- joining -----------------------------------------------------------------------------

/// Texts behind one another, with `separator` between each two.
pub open spec fn joined(parts: Seq<Seq<char>>, separator: Seq<char>) -> Seq<char>
    decreases parts.len(),
{
    if parts.len() == 0 {
        seq![]
    } else if parts.len() == 1 {
        parts[0]
    } else {
        joined(parts.drop_last(), separator) + separator + parts.last()
    }
}

/// The texts behind one another, with `separator` between each two.
pub fn join(parts: &[String], separator: &str) -> (r: String)
    ensures
        r@ == joined(parts.deep_view(), separator@),
{
    let mut r = String::new();
    let ghost texts = parts.deep_view();
    assert(texts.take(0) =~= seq![]);
    for i in 0..parts.len()
        invariant
            texts == parts.deep_view(),
            r@ == joined(texts.take(i as int), separator@),
    {
        let ghost before = r@;
        if i > 0 {
            r.append(separator);
        }
        r.append(parts[i].as_str());
        proof {
            let now = texts.take(i + 1);
            assert(now.drop_last() =~= texts.take(i as int));
            assert(now.last() == parts@[i as int]@);
            if i == 0 {
                assert(r@ =~= now[0]);
            } else {
                assert(r@ =~= before + separator@ + now.last());
            }
        }
    }
    assert(texts.take(parts@.len() as int) =~= texts);
    r
}

// ---- decimal numerals --------------------------------------------------------------------

/// The character that stands for a digit.
pub open spec fn digit(d: nat) -> char {
    (48 + d) as char
}

/// The decimal numeral of a number.
pub open spec fn decimal(n: nat) -> Seq<char>
    decreases n,
{
    if n < 10 {
        seq![digit(n)]
    } else {
        decimal(n / 10).push(digit(n % 10))
    }
}

/// Whether a character is an ASCII digit.
pub open spec fn is_digit(c: char) -> bool {
    '0' <= c <= '9'
}

/// The number that an ASCII digit stands for.
pub open spec fn digit_value(c: char) -> nat {
    if is_digit(c) {
        (c as u32 - 48) as nat
    } else {
        0
    }
}

/// The number that the first `i` characters of `s` stand for, read as decimal digits.
pub open spec fn value_of(s: Seq<char>, i: int) -> nat
    decreases i,
{
    if i <= 0 {
        0
    } else {
        value_of(s, i - 1) * 10 + digit_value(s[i - 1])
    }
}

/// A text without a leading plus sign.
pub open spec fn without_plus(s: Seq<char>) -> Seq<char> {
    if s.len() > 0 && s[0] == '+' {
        s.skip(1)
    } else {
        s
    }
}

/// What a text says as a size: decimal digits, perhaps behind a plus sign, for a number that
/// fits.
pub open spec fn parsed_size(s: Seq<char>) -> Option<usize> {
    let digits = without_plus(s);
    let value = value_of(digits, digits.len() as int);
    if digits.len() > 0 && (forall|k: int| 0 <= k < digits.len() ==> is_digit(#[trigger] digits[k]))
        && value <= usize::MAX {
        Some(value as usize)
    } else {
        None
    }
}

proof fn lemma_value_grows(s: Seq<char>, i: int, j: int)
    requires
        0 <= i <= j <= s.len(),
    ensures
        value_of(s, i) <= value_of(s, j),
    decreases j,
{
    if i < j {
        lemma_value_grows(s, i, j - 1);
    }
}

proof fn lemma_value_of_prefix(s: Seq<char>, t: Seq<char>, i: int)
    requires
        0 <= i <= s.len(),
        i <= t.len(),
        s.take(i) == t.take(i),
    ensures
        value_of(s, i) == value_of(t, i),
    decreases i,
{
    if i > 0 {
        assert(s.take(i)[i - 1] == s[i - 1]);
        assert(t.take(i)[i - 1] == t[i - 1]);
        assert(s.take(i - 1) =~= s.take(i).take(i - 1));
        assert(t.take(i - 1) =~= t.take(i).take(i - 1));
        lemma_value_of_prefix(s, t, i - 1);
    }
}

/// A decimal numeral consists of digits, and stands for its number.
pub proof fn lemma_decimal(n: nat)
    ensures
        decimal(n).len() > 0,
        forall|k: int| 0 <= k < decimal(n).len() ==> is_digit(#[trigger] decimal(n)[k]),
        value_of(decimal(n), decimal(n).len() as int) == n,
    decreases n,
{
    let s = decimal(n);
    if n < 10 {
        assert(s[0] == digit(n));
        assert(value_of(s, 0) == 0);
        assert(digit_value(digit(n)) == n);
        assert(value_of(s, 1) == value_of(s, 0) * 10 + digit_value(s[0]));
    } else {
        lemma_decimal(n / 10);
        let head = decimal(n / 10);
        assert(s.take(head.len() as int) =~= head);
        assert(head.take(head.len() as int) =~= head);
        lemma_value_of_prefix(s, head, head.len() as int);
        assert(digit_value(digit(n % 10)) == n % 10);
        assert(value_of(s, s.len() as int) == value_of(s, head.len() as int) * 10 + digit_value(
            s[head.len() as int],
        ));
    }
}

/// The decimal numeral of a size is read back as that size.
pub proof fn decimal_reads_back(n: usize)
    ensures
        parsed_size(decimal(n as nat)) == Some(n),
{
    lemma_decimal(n as nat);
    assert(is_digit(decimal(n as nat)[0]));
}

/// The decimal numeral of a number.
pub fn decimal_text(n: u64) -> (r: String)
    ensures
        r@ == decimal(n as nat),
    decreases n,
{
    let glyphs: [char; 10] = ['0', '1', '2', '3', '4', '5', '6', '7', '8', '9'];
    let last: usize = (n % 10) as usize;
    assert(glyphs@[last as int] == digit((n % 10) as nat));
    let mut r = if n < 10 {
        String::new()
    } else {
        decimal_text(n / 10)
    };
    r.push(glyphs[last]);
    assert(n < 10 ==> r@ =~= seq![digit(n as nat)]);
    r
}

/// The size that a text stands for, if it is one.
pub fn parse_size(text: &str) -> (r: Option<usize>)
    ensures
        r == parsed_size(text@),
{
    let chars: Vec<char> = chars_of(text);
    let start: usize = if chars.len() > 0 && chars[0] == '+' {
        1
    } else {
        0
    };
    let ghost digits = without_plus(text@);
    assert(digits =~= chars@.skip(start as int));
    if start == chars.len() {
        return None;
    }
    let mut value: usize = 0;
    let mut i: usize = start;
    while i < chars.len()
        invariant
            chars@ == text@,
            start <= i <= chars@.len(),
            digits == without_plus(text@),
            digits == chars@.skip(start as int),
            value == value_of(digits, i - start),
            forall|k: int| 0 <= k < i - start ==> is_digit(#[trigger] digits[k]),
        decreases chars@.len() - i,
    {
        let c: char = chars[i];
        let ghost k = i - start;
        assert(digits[k] == c);
        if c < '0' || '9' < c {
            assert(!is_digit(digits[k]));
            return None;
        }
        let d: usize = (c as u8 - 48) as usize;
        assert(value_of(digits, k + 1) == value * 10 + d);
        if value > (usize::MAX - d) / 10 {
            proof {
                lemma_value_grows(digits, k + 1, digits.len() as int);
            }
            return None;
        }
        value = value * 10 + d;
        i = i + 1;
    }
    Some(value)
}

} // verus!
