//! The heads of replies, and what a reader finds in a message.
use vstd::prelude::*;

use crate::http;
use crate::text;

verus! {

// ---- the heads of replies ----------------------------------------------------------------

/// The characters between two header lines.
pub open spec fn line_break() -> Seq<char> {
    seq!['\r', '\n']
}

/// The head of a message: its lines, and the blank line behind them.
pub open spec fn head_with(lines: Seq<Seq<char>>) -> Seq<char> {
    text::joined(lines, line_break()) + http::blank_line()
}

/// The lines of a reply whose body has a known length.
pub open spec fn reply_lines(status: Seq<char>, content_type: Seq<char>, length: nat) -> Seq<
    Seq<char>,
> {
    seq![
        "HTTP/1.1 "@ + status,
        "Content-Type: "@ + content_type,
        "Access-Control-Allow-Origin: *"@,
        "Access-Control-Allow-Methods: GET, POST, OPTIONS"@,
        "Access-Control-Allow-Headers: Content-Type, Authorization"@,
        "Content-Length: "@ + text::decimal(length),
        "Connection: close"@,
    ]
}

/// The lines of the reply to a preflight request.
pub open spec fn preflight_lines() -> Seq<Seq<char>> {
    seq![
        "HTTP/1.1 204 No Content"@,
        "Access-Control-Allow-Origin: *"@,
        "Access-Control-Allow-Methods: GET, POST, OPTIONS"@,
        "Access-Control-Allow-Headers: Content-Type, Authorization"@,
        "Content-Length: 0"@,
        "Connection: close"@,
    ]
}

/// The lines of a reply whose body ends with the connection.
pub open spec fn stream_lines(status: Seq<char>, content_type: Seq<char>) -> Seq<Seq<char>> {
    seq![
        "HTTP/1.1 "@ + status,
        "Content-Type: "@ + content_type,
        "Cache-Control: no-cache"@,
        "Access-Control-Allow-Origin: *"@,
        "Access-Control-Allow-Methods: GET, POST, OPTIONS"@,
        "Access-Control-Allow-Headers: Content-Type, Authorization"@,
        "Connection: close"@,
    ]
}

/// The head made of the lines.
fn head_text(lines: Vec<String>) -> (r: String)
    ensures
        r@ == head_with(lines.deep_view()),
{
    proof {
        reveal_strlit("\r\n");
        reveal_strlit("\r\n\r\n");
        assert("\r\n"@ =~= line_break());
        assert("\r\n\r\n"@ =~= http::blank_line());
    }
    let mut r: String = text::join(lines.as_slice(), "\r\n");
    r.append("\r\n\r\n");
    r
}

/// Two texts behind one another.
fn joined_pair(a: &str, b: &str) -> (r: String)
    ensures
        r@ == a@ + b@,
{
    let mut r = a.to_string();
    r.append(b);
    r
}

/// The head of a reply whose body has the given length.
pub fn reply_head(status: &str, content_type: &str, length: usize) -> (r: String)
    ensures
        r@ == head_with(reply_lines(status@, content_type@, length as nat)),
{
    let numeral: String = text::decimal_text(length as u64);
    let lines: Vec<String> = vec![
        joined_pair("HTTP/1.1 ", status),
        joined_pair("Content-Type: ", content_type),
        "Access-Control-Allow-Origin: *".to_string(),
        "Access-Control-Allow-Methods: GET, POST, OPTIONS".to_string(),
        "Access-Control-Allow-Headers: Content-Type, Authorization".to_string(),
        joined_pair("Content-Length: ", numeral.as_str()),
        "Connection: close".to_string(),
    ];
    assert(lines.deep_view() =~= reply_lines(status@, content_type@, length as nat));
    head_text(lines)
}

/// The head of the reply to a preflight request.
pub fn preflight_head() -> (r: String)
    ensures
        r@ == head_with(preflight_lines()),
{
    let lines: Vec<String> = vec![
        "HTTP/1.1 204 No Content".to_string(),
        "Access-Control-Allow-Origin: *".to_string(),
        "Access-Control-Allow-Methods: GET, POST, OPTIONS".to_string(),
        "Access-Control-Allow-Headers: Content-Type, Authorization".to_string(),
        "Content-Length: 0".to_string(),
        "Connection: close".to_string(),
    ];
    assert(lines.deep_view() =~= preflight_lines());
    head_text(lines)
}

/// The head of a reply whose body ends with the connection.
pub fn stream_head(status: &str, content_type: &str) -> (r: String)
    ensures
        r@ == head_with(stream_lines(status@, content_type@)),
{
    let lines: Vec<String> = vec![
        joined_pair("HTTP/1.1 ", status),
        joined_pair("Content-Type: ", content_type),
        "Cache-Control: no-cache".to_string(),
        "Access-Control-Allow-Origin: *".to_string(),
        "Access-Control-Allow-Methods: GET, POST, OPTIONS".to_string(),
        "Access-Control-Allow-Headers: Content-Type, Authorization".to_string(),
        "Connection: close".to_string(),
    ];
    assert(lines.deep_view() =~= stream_lines(status@, content_type@));
    head_text(lines)
}

// ---- what a reader finds in a message ----------------------------------------------------

/// Whether lines can stand in a head: none is empty, none holds a line feed.
pub open spec fn are_head_lines(lines: Seq<Seq<char>>) -> bool {
    &&& lines.len() > 0
    &&& forall|k: int| 0 <= k < lines.len() ==> is_head_line(#[trigger] lines[k])
}

/// Whether a line can stand in a head.
pub open spec fn is_head_line(line: Seq<char>) -> bool {
    line.len() > 0 && !line.contains('\n')
}

proof fn lemma_lines_behind(x: Seq<char>, y: Seq<char>, i: int)
    requires
        0 <= i < x.len(),
        x.last() != '\n',
        is_head_line(y),
    ensures
        text::lines_from(x + line_break() + y, i) == text::lines_from(x, i).push(y),
    decreases x.len() - i,
{
    let s = x + line_break() + y;
    let j = text::index_from(x, '\n', i);
    text::lemma_index_from(x, '\n', i);
    if j < x.len() {
        assert forall|k: int| i <= k < j implies #[trigger] s[k] != '\n' by {
            assert(s[k] == x[k]);
        }
        assert(s[j] == x[j]);
        text::lemma_index_is(s, '\n', i, j);
        assert(s.subrange(i, j) =~= x.subrange(i, j));
        assert(j + 1 < x.len());
        lemma_lines_behind(x, y, j + 1);
        let head = seq![text::without_return(x.subrange(i, j))];
        assert(head + text::lines_from(x, j + 1).push(y) =~= (head + text::lines_from(
            x,
            j + 1,
        )).push(y));
    } else {
        let at = x.len() as int + 1;
        assert forall|k: int| i <= k < at implies #[trigger] s[k] != '\n' by {
            if k < x.len() {
                assert(s[k] == x[k]);
            } else {
                assert(s[k] == '\r');
            }
        }
        assert(s[at] == '\n');
        text::lemma_index_is(s, '\n', i, at);
        let raw = s.subrange(i, at);
        assert(raw.last() == '\r');
        assert(raw.drop_last() =~= x.subrange(i, j));
        let from = at + 1;
        assert forall|k: int| from <= k < s.len() implies #[trigger] s[k] != '\n' by {
            assert(s[k] == y[k - from]);
            assert(y.contains(y[k - from]));
        }
        text::lemma_index_is(s, '\n', from, s.len() as int);
        assert(s.subrange(from, s.len() as int) =~= y);
        assert(text::lines_from(s, from) =~= seq![y]);
        assert(text::lines_from(x, i) =~= seq![x.subrange(i, j)]);
        assert(seq![x.subrange(i, j)] + seq![y] =~= seq![x.subrange(i, j)].push(y));
    }
}

/// What the head lines make ends in no line feed.
proof fn lemma_joined_end(lines: Seq<Seq<char>>)
    requires
        are_head_lines(lines),
    ensures
        text::joined(lines, line_break()).len() > 0,
        text::joined(lines, line_break()).last() != '\n',
    decreases lines.len(),
{
    let last = lines.last();
    assert(is_head_line(lines[lines.len() - 1]));
    assert(last.contains(last.last()));
    assert(text::joined(lines, line_break()).last() == last.last());
}

proof fn lemma_head_lines_without_last(lines: Seq<Seq<char>>)
    requires
        are_head_lines(lines),
        lines.len() > 1,
    ensures
        are_head_lines(lines.drop_last()),
{
    assert forall|k: int| 0 <= k < lines.drop_last().len() implies is_head_line(
        #[trigger] lines.drop_last()[k],
    ) by {
        assert(lines.drop_last()[k] == lines[k]);
    }
}

/// Header lines with a line break between each two are read as these lines.
pub proof fn head_lines_read_back(lines: Seq<Seq<char>>)
    requires
        are_head_lines(lines),
    ensures
        text::lines(text::joined(lines, line_break())) == lines,
    decreases lines.len(),
{
    let s = text::joined(lines, line_break());
    assert(is_head_line(lines[lines.len() - 1]));
    if lines.len() == 1 {
        assert forall|k: int| 0 <= k < s.len() implies #[trigger] s[k] != '\n' by {
            assert(s.contains(s[k]));
        }
        text::lemma_index_is(s, '\n', 0, s.len() as int);
        assert(s.subrange(0, s.len() as int) =~= s);
        assert(text::lines(s) =~= lines);
    } else {
        let rest = lines.drop_last();
        lemma_head_lines_without_last(lines);
        head_lines_read_back(rest);
        lemma_joined_end(rest);
        lemma_lines_behind(text::joined(rest, line_break()), lines.last(), 0);
        assert(rest.push(lines.last()) =~= lines);
    }
}

/// A line feed in the lines of a head is followed by a line, not by a line break.
proof fn lemma_no_early_blank(lines: Seq<Seq<char>>, p: int)
    requires
        are_head_lines(lines),
        0 <= p < text::joined(lines, line_break()).len(),
        text::joined(lines, line_break())[p] == '\n',
    ensures
        p + 1 < text::joined(lines, line_break()).len(),
        p + 2 < text::joined(lines, line_break()).len() ==> text::joined(lines, line_break())[p
            + 2] != '\n',
    decreases lines.len(),
{
    let s = text::joined(lines, line_break());
    let y = lines.last();
    assert(is_head_line(lines[lines.len() - 1]));
    if lines.len() == 1 {
        assert(s.contains(s[p]));
    } else {
        let rest = lines.drop_last();
        let x = text::joined(rest, line_break());
        lemma_head_lines_without_last(lines);
        if p < x.len() {
            assert(s[p] == x[p]);
            lemma_no_early_blank(rest, p);
            if p + 2 < x.len() {
                assert(s[p + 2] == x[p + 2]);
            } else {
                assert(s[p + 2] == '\r');
            }
        } else {
            let from = x.len() as int + 2;
            if p == x.len() {
                assert(s[p] == '\r');
            }
            if p >= from {
                assert(s[p] == y[p - from]);
                assert(y.contains(y[p - from]));
            }
            if p + 2 < s.len() {
                assert(s[p + 2] == y[p + 2 - from]);
                assert(y.contains(y[p + 2 - from]));
            }
        }
    }
}

/// The headers of a message end behind the lines of its head, whatever its body holds.
pub proof fn head_ends_behind_its_lines(lines: Seq<Seq<char>>, body: Seq<char>)
    requires
        are_head_lines(lines),
    ensures
        http::header_end_in(head_with(lines) + body) == Some(
            text::joined(lines, line_break()).len() as int,
        ),
        http::head_of(head_with(lines) + body) == text::joined(lines, line_break()),
        http::body_of(head_with(lines) + body) == body,
{
    let x = text::joined(lines, line_break());
    let s = head_with(lines) + body;
    let at = x.len() as int;
    assert(s.subrange(at, at + 4) =~= http::blank_line());
    assert forall|k: int| 0 <= k < at implies !text::stands_at(s, http::blank_line(), k) by {
        if text::stands_at(s, http::blank_line(), k) {
            let here = s.subrange(k, k + 4);
            assert(here[1] == '\n' && here[3] == '\n');
            assert(s[k + 1] == here[1] && s[k + 3] == here[3]);
            if k + 1 < at {
                assert(s[k + 1] == x[k + 1]);
                lemma_no_early_blank(lines, k + 1);
                if k + 3 < at {
                    assert(s[k + 3] == x[k + 3]);
                } else {
                    assert(s[at] == '\r');
                }
            } else {
                assert(s[at] == '\r');
            }
        }
    }
    text::lemma_find_is(s, http::blank_line(), 0, at);
    assert(s.subrange(0, at) =~= x);
    assert(s.subrange(at + 4, s.len() as int) =~= body);
}

/// A line whose name does not begin as `content-length` declares no length.
proof fn lemma_not_length(line: Seq<char>)
    requires
        line.len() > 0,
        line[0] != ':',
        !text::white_space(line[0]),
        text::lower(line[0]) != 'c',
    ensures
        http::length_on(line) is None,
{
    reveal_strlit("content-length");
    let name = http::field_name(line);
    text::lemma_index_from(line, ':', 0);
    assert(name[0] == line[0]);
    text::lemma_trimmed_head(name);
    let t = text::trimmed(name);
    if http::is_header(line, "content-length"@) {
        assert(text::lowered(t)[0] == text::lowered("content-length"@)[0]);
    }
}

/// The head of a reply declares the length that it was made for.
pub proof fn reply_declares_its_length(status: Seq<char>, content_type: Seq<char>, length: usize)
    requires
        !status.contains('\n'),
        !content_type.contains('\n'),
    ensures
        are_head_lines(reply_lines(status, content_type, length as nat)),
        http::content_length(
            text::joined(reply_lines(status, content_type, length as nat), line_break()),
        ) == Some(length),
{
    let lines = reply_lines(status, content_type, length as nat);
    reveal_strlit("HTTP/1.1 ");
    reveal_strlit("Content-Type: ");
    reveal_strlit("Access-Control-Allow-Origin: *");
    reveal_strlit("Access-Control-Allow-Methods: GET, POST, OPTIONS");
    reveal_strlit("Access-Control-Allow-Headers: Content-Type, Authorization");
    reveal_strlit("Content-Length: ");
    reveal_strlit("Connection: close");
    reveal_strlit("content-length");
    let numeral = text::decimal(length as nat);
    text::lemma_decimal(length as nat);
    assert(is_head_line(lines[0])) by {
        assert forall|k: int| 0 <= k < lines[0].len() implies lines[0][k] != '\n' by {
            if k >= 9 {
                assert(lines[0][k] == status[k - 9]);
                assert(status.contains(status[k - 9]));
            }
        }
    }
    assert(is_head_line(lines[1])) by {
        assert forall|k: int| 0 <= k < lines[1].len() implies lines[1][k] != '\n' by {
            if k >= 14 {
                assert(lines[1][k] == content_type[k - 14]);
                assert(content_type.contains(content_type[k - 14]));
            }
        }
    }
    assert(is_head_line(lines[5])) by {
        assert forall|k: int| 0 <= k < lines[5].len() implies lines[5][k] != '\n' by {
            if k >= 16 {
                assert(lines[5][k] == numeral[k - 16]);
                assert(text::is_digit(numeral[k - 16]));
            }
        }
    }
    head_lines_read_back(lines);
    lemma_not_length(lines[0]);
    lemma_not_length(lines[2]);
    lemma_not_length(lines[3]);
    lemma_not_length(lines[4]);
    assert(http::length_on(lines[1]) is None) by {
        text::lemma_index_is(lines[1], ':', 0, 12);
        text::lemma_trimmed_stays(http::field_name(lines[1]));
        if http::is_header(lines[1], "content-length"@) {
            assert(text::lowered(http::field_name(lines[1])).len() == text::lowered(
                "content-length"@,
            ).len());
        }
    }
    assert(http::length_on(lines[5]) == Some(length)) by {
        let line = lines[5];
        text::lemma_index_is(line, ':', 0, 14);
        let name = http::field_name(line);
        text::lemma_trimmed_stays(name);
        assert(text::lowered(name) =~= text::lowered("content-length"@));
        assert(http::field_value(line) =~= seq![' '] + numeral);
        assert(text::is_digit(numeral[0]) && text::is_digit(numeral[numeral.len() - 1]));
        text::lemma_trimmed_after_space(numeral);
        text::decimal_reads_back(length);
    }
    assert(http::length_among(lines, 5) == Some(length));
    assert(http::length_among(lines, 4) == Some(length));
    assert(http::length_among(lines, 3) == Some(length));
    assert(http::length_among(lines, 2) == Some(length));
    assert(http::length_among(lines, 1) == Some(length));
    assert(http::length_among(lines, 0) == Some(length));
}

/// The head of the reply to a preflight request declares that there is no body.
pub proof fn preflight_declares_no_body()
    ensures
        are_head_lines(preflight_lines()),
        http::content_length(text::joined(preflight_lines(), line_break())) == Some(0usize),
{
    let lines = preflight_lines();
    reveal_strlit("HTTP/1.1 204 No Content");
    reveal_strlit("Access-Control-Allow-Origin: *");
    reveal_strlit("Access-Control-Allow-Methods: GET, POST, OPTIONS");
    reveal_strlit("Access-Control-Allow-Headers: Content-Type, Authorization");
    reveal_strlit("Content-Length: 0");
    reveal_strlit("Connection: close");
    reveal_strlit("content-length");
    assert(is_head_line(lines[0]) && is_head_line(lines[1]) && is_head_line(lines[2])
        && is_head_line(lines[3]) && is_head_line(lines[4]) && is_head_line(lines[5]));
    head_lines_read_back(lines);
    lemma_not_length(lines[0]);
    lemma_not_length(lines[1]);
    lemma_not_length(lines[2]);
    lemma_not_length(lines[3]);
    assert(http::length_on(lines[4]) == Some(0usize)) by {
        let line = lines[4];
        text::lemma_index_is(line, ':', 0, 14);
        let name = http::field_name(line);
        text::lemma_trimmed_stays(name);
        assert(text::lowered(name) =~= text::lowered("content-length"@));
        assert(http::field_value(line) =~= seq![' '] + text::decimal(0));
        text::lemma_decimal(0);
        assert(text::is_digit(text::decimal(0)[0]));
        text::lemma_trimmed_after_space(text::decimal(0));
        text::decimal_reads_back(0);
    }
    assert(http::length_among(lines, 4) == Some(0usize));
    assert(http::length_among(lines, 3) == Some(0usize));
    assert(http::length_among(lines, 2) == Some(0usize));
    assert(http::length_among(lines, 1) == Some(0usize));
    assert(http::length_among(lines, 0) == Some(0usize));
}

} // verus!
