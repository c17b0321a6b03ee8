//! Paths as texts: the file name, and its stem and extension. The platforms are Unix and Windows.
use vstd::prelude::*;

use crate::text;

verus! {

/// Whether a path means the same on every platform: it names no drive or share, and slashes
/// alone separate its parts.
pub open spec fn is_portable(path: Seq<char>) -> bool {
    &&& !path.contains('\\')
    &&& !(path.len() >= 2 && path[1] == ':')
    &&& !(path.len() >= 2 && path[0] == '/' && path[1] == '/')
}

/// Where the part of a path that ends at `j` begins.
pub open spec fn part_start(path: Seq<char>, j: int) -> int
    decreases j,
{
    if j <= 0 || path[j - 1] == '/' {
        j
    } else {
        part_start(path, j - 1)
    }
}

/// The file name among the first `j` characters of a portable path: the last part that is
/// neither empty nor one dot, unless it is two dots.
pub open spec fn file_name_before(path: Seq<char>, j: int) -> Option<Seq<char>>
    decreases j,
{
    let i = part_start(path, j);
    let part = path.subrange(i, j);
    if part == seq!['.', '.'] {
        None
    } else if part.len() > 0 && part != seq!['.'] {
        Some(part)
    } else if 0 < i <= j {
        file_name_before(path, i - 1)
    } else {
        None
    }
}

/// The file name of a portable path.
pub open spec fn file_name(path: Seq<char>) -> Option<Seq<char>> {
    file_name_before(path, path.len() as int)
}

/// Whether a character separates the parts of a path on some platform.
pub open spec fn may_separate(c: char) -> bool {
    c == '/' || c == '\\' || c == ':'
}

/// Where the part that ends at `j` begins, whatever the platform.
pub open spec fn tail_start(path: Seq<char>, j: int) -> int
    decreases j,
{
    if j <= 0 || may_separate(path[j - 1]) {
        j
    } else {
        tail_start(path, j - 1)
    }
}

/// What stands at the end of a path behind all characters that may separate its parts.
pub open spec fn tail(path: Seq<char>) -> Seq<char> {
    path.subrange(tail_start(path, path.len() as int), path.len() as int)
}

/// Whether a path ends in a name on every platform: it names no share, and its tail is neither
/// empty nor dots that mean a directory.
pub open spec fn ends_in_name(path: Seq<char>) -> bool {
    &&& !(path.len() >= 2 && may_separate(path[0]) && may_separate(path[1]))
    &&& tail(path).len() > 0
    &&& tail(path) != seq!['.']
    &&& tail(path) != seq!['.', '.']
}

/// Whether characters of a path can be one of its parts: on either side they reach to a character
/// that may separate parts, or to an end of the path.
pub open spec fn is_part(path: Seq<char>, i: int, j: int) -> bool {
    &&& 0 <= i < j <= path.len()
    &&& i == 0 || may_separate(path[i - 1])
    &&& j == path.len() || may_separate(path[j])
}

/// Whether a text can be one of the parts of a path.
pub open spec fn may_be_part(path: Seq<char>, name: Seq<char>) -> bool {
    exists|i: int, j: int| #[trigger] is_part(path, i, j) && name == path.subrange(i, j)
}

/// What holds of the file name of a path on every platform: it is known in full for a portable
/// path, and it is one of the parts of any other. A path that ends in a name ends in its file
/// name, which holds the whole of that name and no slash.
pub open spec fn is_file_name_of(path: Seq<char>, name: Option<Seq<char>>) -> bool {
    &&& is_portable(path) ==> name == file_name(path)
    &&& name is Some ==> may_be_part(path, name->0)
    &&& ends_in_name(path) ==> name is Some && tail(path).is_suffix_of(name->0)
        && name->0.is_suffix_of(path) && !name->0.contains('/')
}

/// `std::path::Path::file_name`. It is stated in full for paths that mean the same on every
/// platform. Of another path the file name is one of the parts; which one, and how much belongs to
/// it, depends on the platform's separators and prefixes. A path that ends in a name ends in its
/// file name, which holds the whole of that name, and no slash, since slashes separate the parts
/// of such a path on every platform.
#[verifier::external_body]
pub(crate) fn path_file_name(path: &str) -> (r: Option<String>)
    ensures
        is_file_name_of(path@, r.deep_view()),
{
    std::path::Path::new(path).file_name().and_then(|name| name.to_str()).map(
        |name| name.to_string(),
    )
}

/// The last position before `j` that holds a dot, or -1.
pub open spec fn last_dot(name: Seq<char>, j: int) -> int
    decreases j,
{
    if j <= 0 {
        -1
    } else if name[j - 1] == '.' {
        j - 1
    } else {
        last_dot(name, j - 1)
    }
}

/// What stands before the last dot of a file name, a dot at its start not counting; the name
/// where there is none.
pub open spec fn stem(name: Seq<char>) -> Seq<char> {
    let dot = last_dot(name, name.len() as int);
    if dot > 0 {
        name.subrange(0, dot)
    } else {
        name
    }
}

/// What stands behind the last dot of a file name, a dot at its start not counting.
pub open spec fn extension(name: Seq<char>) -> Option<Seq<char>> {
    let dot = last_dot(name, name.len() as int);
    if dot > 0 {
        Some(name.subrange(dot + 1, name.len() as int))
    } else {
        None
    }
}

/// The stem and the extension of a file name.
pub fn split_file_name(name: &str) -> (r: (String, Option<String>))
    ensures
        r.0@ == stem(name@),
        r.1.deep_view() == extension(name@),
{
    let chars: Vec<char> = text::chars_of(name);
    let mut j: usize = chars.len();
    while j > 0 && chars[j - 1] != '.'
        invariant
            j <= chars@.len(),
            last_dot(chars@, j as int) == last_dot(chars@, chars@.len() as int),
        decreases j,
    {
        j = j - 1;
    }
    if j > 1 {
        let before: String = text::string_of_range(chars.as_slice(), 0, j - 1);
        let behind: String = text::string_of_range(chars.as_slice(), j, chars.len());
        (before, Some(behind))
    } else {
        (text::string_of(chars.as_slice()), None)
    }
}

/// What a name ends in holds its last dot, where it holds one.
proof fn lemma_last_dot(name: Seq<char>, end: Seq<char>, j: int)
    requires
        end.is_suffix_of(name),
        0 <= j <= end.len(),
    ensures
        last_dot(end, j) >= 0 ==> last_dot(name, name.len() - end.len() + j) == name.len()
            - end.len() + last_dot(end, j),
        last_dot(end, j) < j,
    decreases j,
{
    if j > 0 {
        assert(name[name.len() - end.len() + j - 1] == end[j - 1]);
        lemma_last_dot(name, end, j - 1);
    }
}

/// A name has the extension of what it ends in, where that has one.
pub proof fn lemma_extension_of_end(name: Seq<char>, end: Seq<char>)
    requires
        end.is_suffix_of(name),
        extension(end) is Some,
    ensures
        extension(name) == extension(end),
{
    lemma_last_dot(name, end, end.len() as int);
    let dot = last_dot(end, end.len() as int);
    let at = name.len() - end.len();
    assert(name.subrange(at + dot + 1, name.len() as int) =~= end.subrange(
        dot + 1,
        end.len() as int,
    ));
}

/// The stem of a name ends in the stem of what the name ends in, where that has an extension.
pub proof fn lemma_stem_of_end(name: Seq<char>, end: Seq<char>)
    requires
        end.is_suffix_of(name),
        extension(end) is Some,
    ensures
        stem(end).is_suffix_of(stem(name)),
{
    lemma_last_dot(name, end, end.len() as int);
    let dot = last_dot(end, end.len() as int);
    let at = name.len() - end.len();
    assert(stem(name).subrange(stem(name).len() - dot, stem(name).len() as int) =~= stem(end)) by {
        assert(stem(name).len() == at + dot);
        assert forall|k: int| 0 <= k < dot implies stem(name)[at + k] == #[trigger] end[k] by {
            assert(name.subrange(at, name.len() as int)[k] == name[at + k]);
        }
    }
}

/// Whether the file name of a path has no extension on any platform, but for such as hold a
/// character that may separate parts: the path ends in a name without a dot, or has no dot at all.
pub open spec fn shows_no_extension(path: Seq<char>) -> bool {
    ||| ends_in_name(path) && !tail(path).contains('.')
    ||| !path.contains('.')
}

/// Whether a text holds a character that may separate the parts of a path.
pub open spec fn holds_separator(s: Seq<char>) -> bool {
    exists|k: int| 0 <= k < s.len() && may_separate(#[trigger] s[k])
}

proof fn lemma_dot_at(name: Seq<char>, j: int)
    requires
        0 <= j <= name.len(),
    ensures
        -1 <= last_dot(name, j) < j,
        last_dot(name, j) >= 0 ==> name[last_dot(name, j)] == '.',
    decreases j,
{
    if j > 0 {
        lemma_dot_at(name, j - 1);
    }
}

proof fn lemma_tail_start(path: Seq<char>, j: int)
    requires
        0 <= j <= path.len(),
    ensures
        0 <= tail_start(path, j) <= j,
        tail_start(path, j) > 0 ==> may_separate(path[tail_start(path, j) - 1]),
    decreases j,
{
    if j > 0 && !may_separate(path[j - 1]) {
        lemma_tail_start(path, j - 1);
    }
}

/// Where a path shows no extension, its file name has none but with a character that may separate
/// parts.
pub proof fn lemma_no_extension(path: Seq<char>, name: Seq<char>)
    requires
        is_file_name_of(path, Some(name)),
        shows_no_extension(path),
        extension(name) is Some,
    ensures
        holds_separator(extension(name)->0),
{
    let dot = last_dot(name, name.len() as int);
    lemma_dot_at(name, name.len() as int);
    if !path.contains('.') {
        let (i, j) = choose|i: int, j: int| #[trigger]
            is_part(path, i, j) && name == path.subrange(i, j);
        assert(path[i + dot] == '.');
    } else {
        let end = tail(path);
        let from = tail_start(path, path.len() as int);
        lemma_tail_start(path, path.len() as int);
        let at = name.len() - end.len();
        assert(path.subrange(path.len() - name.len(), path.len() as int) == name);
        assert(name.subrange(at, name.len() as int) == end);
        if dot >= at {
            assert(end[dot - at] == name[dot]);
        }
        assert(at > 0);
        assert(name[at - 1] == path[from - 1]);
        assert(extension(name)->0[at - 1 - (dot + 1)] == name[at - 1]);
    }
}

} // verus!
