//! What is read from a request, and what a reader finds in a reply.
use vstd::prelude::*;

use crate::framing;
use crate::http;
use crate::http::HelperRequest;
use crate::text;
use crate::text_laws;

verus! {

// ---- the parts of a request --------------------------------------------------------------

/// A request is its head, a blank line, and its body, and there is no blank line before that one;
/// without a blank line it is all head, and its body is empty.
pub proof fn requests_split_at_the_first_blank_line(request: Seq<char>, k: int)
    ensures
        http::header_end_in(request) is Some ==> request == http::head_of(request) + seq![
            '\r',
            '\n',
            '\r',
            '\n',
        ] + http::body_of(request),
        http::header_end_in(request) is None ==> http::head_of(request) == request && http::body_of(
            request,
        ).len() == 0,
        0 <= k && k + 4 <= request.len() && request[k] == '\r' && request[k + 1] == '\n'
            && request[k + 2] == '\r' && request[k + 3] == '\n' ==> http::header_end_in(request)
            is Some && http::head_of(request).len() <= k,
{
    text::lemma_find_from(request, http::blank_line(), 0);
    if http::header_end_in(request) is Some {
        let e = http::header_end_in(request)->0;
        assert(request.subrange(e, e + 4) == http::blank_line());
        assert(request =~= request.subrange(0, e) + request.subrange(e, e + 4) + request.subrange(
            e + 4,
            request.len() as int,
        ));
    }
    if 0 <= k && k + 4 <= request.len() && request[k] == '\r' && request[k + 1] == '\n' && request[k
        + 2] == '\r' && request[k + 3] == '\n' {
        assert(request.subrange(k, k + 4) =~= http::blank_line());
        assert(text::stands_at(request, http::blank_line(), k));
    }
}

/// The headers that came in bytes end before the first blank line among them, and nowhere without
/// one.
pub proof fn headers_in_bytes_end_at_the_first_blank_line(bytes: Seq<u8>, k: int)
    ensures
        http::header_end(bytes) is Some ==> ({
            let e = http::header_end(bytes)->0;
            0 <= e && e + 4 <= bytes.len() && bytes[e] == 13 && bytes[e + 1] == 10 && bytes[e + 2]
                == 13 && bytes[e + 3] == 10
        }),
        0 <= k && k + 4 <= bytes.len() && bytes[k] == 13 && bytes[k + 1] == 10 && bytes[k + 2] == 13
            && bytes[k + 3] == 10 ==> http::header_end(bytes) is Some && http::header_end(bytes)->0
            <= k,
{
    text::lemma_find_from(bytes, http::blank_line_bytes(), 0);
    if http::header_end(bytes) is Some {
        let e = http::header_end(bytes)->0;
        let here = bytes.subrange(e, e + 4);
        assert(here[0] == 13 && here[1] == 10 && here[2] == 13 && here[3] == 10);
    }
    if 0 <= k && k + 4 <= bytes.len() && bytes[k] == 13 && bytes[k + 1] == 10 && bytes[k + 2] == 13
        && bytes[k + 3] == 10 {
        assert(bytes.subrange(k, k + 4) =~= http::blank_line_bytes());
        assert(text::stands_at(bytes, http::blank_line_bytes(), k));
    }
}

/// The first line of a request ends before its first line break.
pub proof fn first_line_ends_at_its_break(line: Seq<char>, rest: Seq<char>)
    requires
        !line.contains('\n'),
    ensures
        http::first_line(line + seq!['\r', '\n'] + rest) == line,
        http::first_line(line) == line,
{
    text_laws::line_feed_ends_a_line(line, rest);
    text_laws::text_without_line_feed_is_one_line(line);
    if line.len() == 0 {
        assert(http::first_line(line) =~= line);
    }
}

/// The method is the first word of the first line, and the path is the second one, up to a
/// question mark in it.
pub proof fn first_line_names_method_and_path(
    method: Seq<char>,
    path: Seq<char>,
    query: Seq<char>,
    rest: Seq<char>,
)
    requires
        text_laws::is_word(method),
        text_laws::is_word(path),
        !path.contains('?'),
        text_laws::is_word(path.push('?') + query),
    ensures
        http::method_on(method + seq![' '] + path + seq![' '] + rest) == method,
        http::path_on(method + seq![' '] + path + seq![' '] + rest) == path,
        http::method_on(method + seq![' '] + (path.push('?') + query) + seq![' '] + rest) == method,
        http::path_on(method + seq![' '] + (path.push('?') + query) + seq![' '] + rest) == path,
{
    lemma_target(method, path, rest);
    lemma_target(method, path.push('?') + query, rest);
    assert forall|k: int| 0 <= k < path.len() implies #[trigger] path[k] != '?' by {
        assert(path.contains(path[k]));
    }
    text::lemma_index_is(path, '?', 0, path.len() as int);
    assert(path.subrange(0, path.len() as int) =~= path);
    let target = path.push('?') + query;
    assert forall|k: int| 0 <= k < path.len() implies #[trigger] target[k] != '?' by {
        assert(target[k] == path[k]);
    }
    assert(target[path.len() as int] == '?');
    text::lemma_index_is(target, '?', 0, path.len() as int);
    assert(target.subrange(0, path.len() as int) =~= path);
}

proof fn lemma_target(method: Seq<char>, target: Seq<char>, rest: Seq<char>)
    requires
        text_laws::is_word(method),
        text_laws::is_word(target),
    ensures
        text::word_from(method + seq![' '] + target + seq![' '] + rest, 0) == method,
        text::word_from(
            method + seq![' '] + target + seq![' '] + rest,
            text::after_word(method + seq![' '] + target + seq![' '] + rest, 0),
        ) == target,
{
    let none = Seq::<char>::empty();
    let line = method + seq![' '] + target + seq![' '] + rest;
    let n = method.len() as int;
    text_laws::lemma_word_before_space(none, method, target + seq![' '] + rest);
    assert(none + method + seq![' '] + (target + seq![' '] + rest) =~= line);
    text_laws::lemma_word_before_space(seq![' '], target, rest);
    let behind = line.skip(n);
    assert(behind =~= seq![' '] + target + seq![' '] + rest);
    text_laws::lemma_words_shift(line, n, n);
    let i = text::skip_white(line, n);
    text::lemma_skip_white(line, n);
    text_laws::lemma_words_shift(line, n, i);
    let j = text::skip_dark(line, i);
    assert(text::word_from(behind, 0) == behind.subrange(i - n, j - n));
    assert(text::after_word(behind, 0) == j - n);
    assert(j - n == 1 + target.len());
    assert(i <= j) by {
        assert(text::word_from(behind, 0).len() == target.len());
        assert(text::skip_white(behind, 1) == 1) by {
            assert(behind[1] == target[0]);
        }
        assert(behind[0] == ' ');
        assert(text::skip_white(behind, 0) == 1);
    }
    assert(line.subrange(i, j) =~= behind.subrange(i - n, j - n));
}

// ---- headers -----------------------------------------------------------------------------

/// A line gives the value behind its first colon, without the white space around it, to the header
/// whose name stands before that colon, in whatever case and with white space around it or
/// without; a line without a colon gives none.
pub proof fn header_lines_are_names_and_values(before: Seq<char>, value: Seq<char>, name: Seq<char>)
    requires
        !before.contains(':'),
    ensures
        text::lowered(text::trimmed(before)) == text::lowered(name) ==> http::header_on(
            before.push(':') + value,
            name,
        ) == Some(text::trimmed(value)),
        text::lowered(text::trimmed(before)) != text::lowered(name) ==> http::header_on(
            before.push(':') + value,
            name,
        ) is None,
        http::header_on(before, name) is None,
{
    let line = before.push(':') + value;
    let n = before.len() as int;
    assert forall|k: int| 0 <= k < n implies #[trigger] before[k] != ':' by {
        assert(before.contains(before[k]));
    }
    assert forall|k: int| 0 <= k < n implies #[trigger] line[k] != ':' by {
        assert(line[k] == before[k]);
    }
    assert(line[n] == ':');
    text::lemma_index_is(line, ':', 0, n);
    text::lemma_index_is(before, ':', 0, n);
    assert(http::field_name(line) =~= before);
    assert(http::field_value(line) =~= value);
}

proof fn lemma_header_among(lines: Seq<Seq<char>>, i: int, k: int, name: Seq<char>)
    requires
        0 <= i <= k <= lines.len(),
        forall|j: int| i <= j < k ==> http::header_on(#[trigger] lines[j], name) is None,
        k < lines.len() ==> http::header_on(lines[k], name) is Some,
    ensures
        http::header_among(lines, i, name) == if k < lines.len() {
            http::header_on(lines[k], name)
        } else {
            None
        },
    decreases k - i,
{
    if i < k {
        assert(http::header_on(lines[i], name) is None);
        lemma_header_among(lines, i + 1, k, name);
    }
}

/// The value of a header is the one that the first of its lines gives to it, unless that is empty;
/// the first line of the request gives none, and neither does the body.
pub proof fn first_line_of_a_header_counts(
    lines: Seq<Seq<char>>,
    body: Seq<char>,
    name: Seq<char>,
    k: int,
)
    requires
        framing::are_head_lines(lines),
        1 <= k <= lines.len(),
        forall|j: int| 1 <= j < k ==> http::header_on(#[trigger] lines[j], name) is None,
        k < lines.len() ==> http::header_on(lines[k], name) is Some,
    ensures
        k < lines.len() && http::header_on(lines[k], name)->0.len() > 0 ==> http::header_value(
            framing::head_with(lines) + body,
            name,
        ) == http::header_on(lines[k], name),
        k == lines.len() || http::header_on(lines[k], name)->0.len() == 0 ==> http::header_value(
            framing::head_with(lines) + body,
            name,
        ) is None,
{
    framing::head_ends_behind_its_lines(lines, body);
    framing::head_lines_read_back(lines);
    lemma_header_among(lines, 1, k, name);
}

proof fn lemma_length_among(lines: Seq<Seq<char>>, i: int, k: int)
    requires
        0 <= i <= k <= lines.len(),
        forall|j: int| i <= j < k ==> http::length_on(#[trigger] lines[j]) is None,
        k < lines.len() ==> http::length_on(lines[k]) is Some,
    ensures
        http::length_among(lines, i) == if k < lines.len() {
            http::length_on(lines[k])
        } else {
            None
        },
    decreases k - i,
{
    if i < k {
        assert(http::length_on(lines[i]) is None);
        lemma_length_among(lines, i + 1, k);
    }
}

/// The length of the body is the one on the first line that gives a size to `content-length`.
pub proof fn first_length_counts(lines: Seq<Seq<char>>, k: int)
    requires
        framing::are_head_lines(lines),
        0 <= k <= lines.len(),
        forall|j: int|
            0 <= j < k ==> http::header_on(#[trigger] lines[j], "content-length"@) is None
                || text::parsed_size(http::header_on(lines[j], "content-length"@)->0) is None,
        k < lines.len() ==> http::header_on(lines[k], "content-length"@) is Some
            && text::parsed_size(http::header_on(lines[k], "content-length"@)->0) is Some,
    ensures
        http::content_length(text::joined(lines, seq!['\r', '\n'])) == if k < lines.len() {
            text::parsed_size(http::header_on(lines[k], "content-length"@)->0)
        } else {
            None
        },
{
    framing::head_lines_read_back(lines);
    assert forall|j: int| 0 <= j < k implies http::length_on(#[trigger] lines[j]) is None by {
        assert(http::header_on(lines[j], "content-length"@) is None || text::parsed_size(
            http::header_on(lines[j], "content-length"@)->0,
        ) is None);
    }
    lemma_length_among(lines, 0, k);
}

proof fn lemma_joined_front(lines: Seq<Seq<char>>, separator: Seq<char>)
    requires
        lines.len() > 1,
    ensures
        text::joined(lines, separator) == lines[0] + separator + text::joined(
            lines.skip(1),
            separator,
        ),
    decreases lines.len(),
{
    if lines.len() == 2 {
        reveal_with_fuel(text::joined, 2);
        assert(lines.drop_last() =~= seq![lines[0]]);
        assert(lines.skip(1) =~= seq![lines[1]]);
    } else {
        let rest = lines.drop_last();
        lemma_joined_front(rest, separator);
        assert(rest.skip(1) =~= lines.skip(1).drop_last());
        assert(text::joined(lines, separator) =~= lines[0] + separator + text::joined(
            lines.skip(1),
            separator,
        ));
    }
}

/// The parts of a request are found in what was sent: the method and the path on the first line,
/// the path without its query, and the body behind the blank line.
pub proof fn requests_are_read_back(
    request: HelperRequest,
    method: Seq<char>,
    path: Seq<char>,
    rest: Seq<char>,
    lines: Seq<Seq<char>>,
    body: Seq<char>,
)
    requires
        framing::are_head_lines(lines),
        lines[0] == method + seq![' '] + path + seq![' '] + rest,
        text_laws::is_word(method),
        text_laws::is_word(path),
        !path.contains('?'),
        request.is_of(framing::head_with(lines) + body),
    ensures
        request.request_line@ == lines[0],
        request.method@ == method,
        request.path@ == path,
        request.body@ == body,
{
    let message = framing::head_with(lines) + body;
    let line = lines[0];
    let end = seq!['\r', '\n'];
    assert(framing::is_head_line(lines[0]));
    if lines.len() > 1 {
        lemma_joined_front(lines, end);
        let behind = text::joined(lines.skip(1), end) + http::blank_line() + body;
        assert(message =~= line + end + behind);
        first_line_ends_at_its_break(line, behind);
    } else {
        let behind = end + body;
        assert(message =~= line + end + behind);
        first_line_ends_at_its_break(line, behind);
    }
    framing::head_ends_behind_its_lines(lines, body);
    lemma_target(method, path, rest);
    assert forall|k: int| 0 <= k < path.len() implies #[trigger] path[k] != '?' by {
        assert(path.contains(path[k]));
    }
    text::lemma_index_is(path, '?', 0, path.len() as int);
    assert(path.subrange(0, path.len() as int) =~= path);
}

/// The client of a request is what the first header names that is called `User-Agent`, in whatever
/// case.
pub proof fn clients_name_themselves(
    request: HelperRequest,
    lines: Seq<Seq<char>>,
    body: Seq<char>,
    name: Seq<char>,
    client: Seq<char>,
    k: int,
)
    requires
        framing::are_head_lines(lines),
        request.is_of(framing::head_with(lines) + body),
        !name.contains(':'),
        text::lowered(text::trimmed(name)) == seq![
            'u',
            's',
            'e',
            'r',
            '-',
            'a',
            'g',
            'e',
            'n',
            't',
        ],
        text::trimmed(client).len() > 0,
        1 <= k < lines.len(),
        lines[k] == name.push(':') + client,
        forall|j: int|
            1 <= j < k ==> http::header_on(#[trigger] lines[j], text::trimmed(name)) is None,
    ensures
        request.user_agent is Some,
        request.user_agent->0@ == text::trimmed(client),
{
    let wanted = "user-agent"@;
    reveal_strlit("user-agent");
    assert(text::lowered(wanted) =~= seq!['u', 's', 'e', 'r', '-', 'a', 'g', 'e', 'n', 't']);
    header_lines_are_names_and_values(name, client, wanted);
    assert forall|j: int| 1 <= j < k implies http::header_on(#[trigger] lines[j], wanted)
        is None by {
        assert(http::header_on(lines[j], text::trimmed(name)) is None);
    }
    first_line_of_a_header_counts(lines, body, wanted, k);
    assert(request.user_agent.deep_view() == Some(text::trimmed(client)));
}

// ---- receiving a request -----------------------------------------------------------------

/// A request is there with its headers and the body that they declare, however large it is; one
/// that is not there is refused above 32 MiB, and read on below.
pub proof fn requests_are_read_up_to_a_limit(received: nat, end: Option<int>, length: nat)
    ensures
        end is Some && received >= end->0 + 4 + length <==> http::step_after(received, end, length)
            is Complete,
        http::step_after(received, end, length) is TooLarge ==> received > 32 * 1024 * 1024,
        http::step_after(received, end, length) is More ==> received <= 32 * 1024 * 1024,
{
}

/// A body is as long as the headers declare, and empty where they declare nothing.
pub proof fn headers_declare_the_body(bytes: Seq<u8>)
    requires
        http::header_end(bytes) is Some,
    ensures
        ({
            let end = http::header_end(bytes)->0;
            let declared = http::content_length(http::lossy_text(bytes.take(end)));
            &&& declared is Some ==> (http::holds_request(bytes) <==> bytes.len() - end - 4
                >= declared->0)
            &&& declared is None ==> http::holds_request(bytes)
        }),
{
    text::lemma_find_from(bytes, http::blank_line_bytes(), 0);
}

// ---- the heads of replies ----------------------------------------------------------------

proof fn lemma_fixed_lines()
    ensures
        framing::is_head_line("Access-Control-Allow-Origin: *"@),
        framing::is_head_line("Access-Control-Allow-Methods: GET, POST, OPTIONS"@),
        framing::is_head_line("Access-Control-Allow-Headers: Content-Type, Authorization"@),
        framing::is_head_line("Cache-Control: no-cache"@),
        framing::is_head_line("Connection: close"@),
{
    reveal_strlit("Access-Control-Allow-Origin: *");
    reveal_strlit("Access-Control-Allow-Methods: GET, POST, OPTIONS");
    reveal_strlit("Access-Control-Allow-Headers: Content-Type, Authorization");
    reveal_strlit("Cache-Control: no-cache");
    reveal_strlit("Connection: close");
}

proof fn lemma_line_with(before: Seq<char>, value: Seq<char>)
    requires
        framing::is_head_line(before),
        !value.contains('\n'),
    ensures
        framing::is_head_line(before + value),
{
    let line = before + value;
    assert forall|k: int| 0 <= k < line.len() implies #[trigger] line[k] != '\n' by {
        if k < before.len() {
            assert(line[k] == before[k]);
            assert(before.contains(before[k]));
        } else {
            assert(line[k] == value[k - before.len()]);
            assert(value.contains(value[k - before.len()]));
        }
    }
}

/// A reader of a reply finds its status, its content type, what other origins may do, the length
/// of the body, and that the connection closes; and the body behind that.
pub proof fn reader_finds_the_reply(
    status: Seq<char>,
    content_type: Seq<char>,
    length: usize,
    body: Seq<char>,
)
    requires
        !status.contains('\n'),
        !content_type.contains('\n'),
    ensures
        ({
            let message = framing::head_with(
                framing::reply_lines(status, content_type, length as nat),
            ) + body;
            &&& http::body_of(message) == body
            &&& text::lines(http::head_of(message)) == seq![
                "HTTP/1.1 "@ + status,
                "Content-Type: "@ + content_type,
                "Access-Control-Allow-Origin: *"@,
                "Access-Control-Allow-Methods: GET, POST, OPTIONS"@,
                "Access-Control-Allow-Headers: Content-Type, Authorization"@,
                "Content-Length: "@ + text::decimal(length as nat),
                "Connection: close"@,
            ]
        }),
{
    let lines = framing::reply_lines(status, content_type, length as nat);
    framing::reply_declares_its_length(status, content_type, length);
    framing::head_lines_read_back(lines);
    framing::head_ends_behind_its_lines(lines, body);
}

/// A reader of the reply to a preflight request finds that there is no content, what other origins
/// may do, and that the connection closes; and nothing behind that.
pub proof fn reader_finds_the_preflight_reply(body: Seq<char>)
    ensures
        ({
            let message = framing::head_with(framing::preflight_lines()) + body;
            &&& http::body_of(message) == body
            &&& text::lines(http::head_of(message)) == seq![
                "HTTP/1.1 204 No Content"@,
                "Access-Control-Allow-Origin: *"@,
                "Access-Control-Allow-Methods: GET, POST, OPTIONS"@,
                "Access-Control-Allow-Headers: Content-Type, Authorization"@,
                "Content-Length: 0"@,
                "Connection: close"@,
            ]
        }),
{
    framing::preflight_declares_no_body();
    framing::head_lines_read_back(framing::preflight_lines());
    framing::head_ends_behind_its_lines(framing::preflight_lines(), body);
}

/// A reader of a reply that is streamed finds its status, its content type, that it is not to be
/// kept, what other origins may do, and that the connection closes, but no length; and the body
/// behind that.
pub proof fn reader_finds_the_stream(status: Seq<char>, content_type: Seq<char>, body: Seq<char>)
    requires
        !status.contains('\n'),
        !content_type.contains('\n'),
    ensures
        ({
            let message = framing::head_with(framing::stream_lines(status, content_type)) + body;
            &&& http::body_of(message) == body
            &&& text::lines(http::head_of(message)) == seq![
                "HTTP/1.1 "@ + status,
                "Content-Type: "@ + content_type,
                "Cache-Control: no-cache"@,
                "Access-Control-Allow-Origin: *"@,
                "Access-Control-Allow-Methods: GET, POST, OPTIONS"@,
                "Access-Control-Allow-Headers: Content-Type, Authorization"@,
                "Connection: close"@,
            ]
        }),
{
    let lines = framing::stream_lines(status, content_type);
    lemma_fixed_lines();
    reveal_strlit("HTTP/1.1 ");
    reveal_strlit("Content-Type: ");
    lemma_line_with("HTTP/1.1 "@, status);
    lemma_line_with("Content-Type: "@, content_type);
    assert forall|k: int| 0 <= k < lines.len() implies framing::is_head_line(
        #[trigger] lines[k],
    ) by {
        assert(k == 0 || k == 1 || k == 2 || k == 3 || k == 4 || k == 5 || k == 6);
    }
    framing::head_lines_read_back(lines);
    framing::head_ends_behind_its_lines(lines, body);
}

} // verus!
