//! HTTP requests of the helper: receiving one, and finding its parts.
use vstd::prelude::*;

use crate::text;

verus! {

/// The largest request that is read, in bytes.
pub const MAX_REQUEST_BYTES: usize = 33554432;

// ---- lossy decoding ----------------------------------------------------------------------

/// The text that `String::from_utf8_lossy` makes of bytes.
pub uninterp spec fn lossy_text(bytes: Seq<u8>) -> Seq<char>;

/// `String::from_utf8_lossy`: the text depends on the bytes alone, and is what they encode
/// where they are UTF-8.
#[verifier::external_body]
pub(crate) fn decode_lossy(bytes: &[u8]) -> (r: String)
    ensures
        r@ == lossy_text(bytes@),
        vstd::utf8::valid_utf8(bytes@) ==> r@ == vstd::utf8::decode_utf8(bytes@),
{
    String::from_utf8_lossy(bytes).into_owned()
}

// ---- the end of the headers --------------------------------------------------------------

/// The bytes that end the headers.
pub open spec fn blank_line_bytes() -> Seq<u8> {
    seq![13u8, 10u8, 13u8, 10u8]
}

/// The characters that end the headers.
pub open spec fn blank_line() -> Seq<char> {
    seq!['\r', '\n', '\r', '\n']
}

/// Where the headers end, if the bytes hold all of them.
pub open spec fn header_end(bytes: Seq<u8>) -> Option<int> {
    text::find_from(bytes, blank_line_bytes(), 0)
}

/// Where the headers end, if the text holds all of them.
pub open spec fn header_end_in(request: Seq<char>) -> Option<int> {
    text::find_from(request, blank_line(), 0)
}

/// A position as a number.
pub open spec fn position(at: Option<usize>) -> Option<int> {
    match at {
        Some(i) => Some(i as int),
        None => None,
    }
}

/// Where the headers end, if the buffer holds all of them.
pub fn find_header_end(buffer: &[u8]) -> (r: Option<usize>)
    ensures
        position(r) == header_end(buffer@),
        r is Some ==> r->0 + 4 <= buffer@.len(),
{
    let mut i: usize = 0;
    while buffer.len() >= 4 && i <= buffer.len() - 4
        invariant
            i <= buffer@.len(),
            text::find_from(buffer@, blank_line_bytes(), i as int) == header_end(buffer@),
        decreases buffer@.len() - i,
    {
        if buffer[i] == 13 && buffer[i + 1] == 10 && buffer[i + 2] == 13 && buffer[i + 3] == 10 {
            assert(buffer@.subrange(i as int, i + 4) =~= blank_line_bytes());
            return Some(i);
        }
        proof {
            let here = buffer@.subrange(i as int, i + 4);
            if here == blank_line_bytes() {
                assert(here[0] == 13 && here[1] == 10 && here[2] == 13 && here[3] == 10);
                assert(here[0] == buffer@[i as int] && here[1] == buffer@[i + 1] && here[2]
                    == buffer@[i + 2] && here[3] == buffer@[i + 3]);
            }
        }
        i = i + 1;
    }
    None
}

/// Where the headers end, if the characters hold all of them.
fn find_header_end_in(chars: &[char]) -> (r: Option<usize>)
    ensures
        position(r) == header_end_in(chars@),
        r is Some ==> r->0 + 4 <= chars@.len(),
{
    let mut i: usize = 0;
    while chars.len() >= 4 && i <= chars.len() - 4
        invariant
            i <= chars@.len(),
            text::find_from(chars@, blank_line(), i as int) == header_end_in(chars@),
        decreases chars@.len() - i,
    {
        if chars[i] == '\r' && chars[i + 1] == '\n' && chars[i + 2] == '\r' && chars[i + 3]
            == '\n' {
            assert(chars@.subrange(i as int, i + 4) =~= blank_line());
            return Some(i);
        }
        proof {
            let here = chars@.subrange(i as int, i + 4);
            if here == blank_line() {
                assert(here[0] == '\r' && here[1] == '\n' && here[2] == '\r' && here[3] == '\n');
                assert(here[0] == chars@[i as int] && here[1] == chars@[i + 1] && here[2]
                    == chars@[i + 2] && here[3] == chars@[i + 3]);
            }
        }
        i = i + 1;
    }
    None
}

/// The headers end where they ended before more bytes came.
pub proof fn header_end_is_stable(bytes: Seq<u8>, more: Seq<u8>)
    requires
        header_end(bytes) is Some,
    ensures
        header_end(bytes + more) == header_end(bytes),
{
    let part = blank_line_bytes();
    let at = header_end(bytes)->0;
    text::lemma_find_from(bytes, part, 0);
    assert((bytes + more).subrange(at, at + 4) =~= bytes.subrange(at, at + 4));
    assert forall|k: int| 0 <= k < at implies !text::stands_at(bytes + more, part, k) by {
        assert(!text::stands_at(bytes, part, k));
        assert((bytes + more).subrange(k, k + 4) =~= bytes.subrange(k, k + 4));
    }
    text::lemma_find_is(bytes + more, part, 0, at);
}

// ---- header lines ------------------------------------------------------------------------

/// What stands before the first colon of a header line.
pub open spec fn field_name(line: Seq<char>) -> Seq<char> {
    line.subrange(0, text::index_from(line, ':', 0))
}

/// What stands behind the first colon of a header line.
pub open spec fn field_value(line: Seq<char>) -> Seq<char> {
    line.subrange(text::index_from(line, ':', 0) + 1, line.len() as int)
}

/// Whether a line is the header of a name, in whatever case.
pub open spec fn is_header(line: Seq<char>, name: Seq<char>) -> bool {
    text::index_from(line, ':', 0) < line.len() && text::lowered(text::trimmed(field_name(line)))
        == text::lowered(name)
}

/// The value that a line gives to a header, without the white space around it.
pub open spec fn header_on(line: Seq<char>, name: Seq<char>) -> Option<Seq<char>> {
    if is_header(line, name) {
        Some(text::trimmed(field_value(line)))
    } else {
        None
    }
}

/// The value that the first of the lines from `k` on that is the header gives to it.
pub open spec fn header_among(lines: Seq<Seq<char>>, k: int, name: Seq<char>) -> Option<Seq<char>>
    decreases lines.len() - k,
{
    if k < 0 || k >= lines.len() {
        None
    } else if is_header(lines[k], name) {
        header_on(lines[k], name)
    } else {
        header_among(lines, k + 1, name)
    }
}

/// The value that the line gives to the header, without the white space around it.
fn header_on_line(line: &str, name: &str) -> (r: Option<String>)
    ensures
        r.deep_view() == header_on(line@, name@),
{
    let chars: Vec<char> = text::chars_of(line);
    let colon: usize = text::find_char(chars.as_slice(), ':', 0);
    if colon == chars.len() {
        return None;
    }
    let found: String = text::string_of_range(chars.as_slice(), 0, colon);
    let found: String = text::trim(found.as_str());
    if text::eq_ignore_ascii_case(found.as_str(), name) {
        let value: String = text::string_of_range(chars.as_slice(), colon + 1, chars.len());
        Some(text::trim(value.as_str()))
    } else {
        None
    }
}

// ---- content length ----------------------------------------------------------------------

/// The length that a line declares.
pub open spec fn length_on(line: Seq<char>) -> Option<usize> {
    match header_on(line, "content-length"@) {
        Some(value) => text::parsed_size(value),
        None => None,
    }
}

/// The length that the first of the lines from `k` on that declares one declares.
pub open spec fn length_among(lines: Seq<Seq<char>>, k: int) -> Option<usize>
    decreases lines.len() - k,
{
    if k < 0 || k >= lines.len() {
        None
    } else if length_on(lines[k]) is Some {
        length_on(lines[k])
    } else {
        length_among(lines, k + 1)
    }
}

/// The length of the body that headers declare.
pub open spec fn content_length(headers: Seq<char>) -> Option<usize> {
    length_among(text::lines(headers), 0)
}

/// The length of the body that the headers declare.
pub fn content_length_from_text(headers: &str) -> (r: Option<usize>)
    ensures
        r == content_length(headers@),
{
    let lines: Vec<String> = text::lines_of(headers);
    let ghost texts = lines.deep_view();
    let mut k: usize = 0;
    while k < lines.len()
        invariant
            k <= lines@.len(),
            texts == lines.deep_view(),
            texts == text::lines(headers@),
            length_among(texts, k as int) == content_length(headers@),
        decreases lines@.len() - k,
    {
        assert(texts[k as int] == lines@[k as int]@);
        let value: Option<String> = header_on_line(lines[k].as_str(), "content-length");
        match value {
            Some(value) => {
                let length: Option<usize> = text::parse_size(value.as_str());
                if length.is_some() {
                    return length;
                }
            },
            None => {},
        }
        k = k + 1;
    }
    None
}

/// The length of the body that the headers declare.
pub fn content_length_from_headers(headers: &[u8]) -> (r: Option<usize>)
    ensures
        r == content_length(lossy_text(headers@)),
        vstd::utf8::valid_utf8(headers@) ==> r == content_length(
            vstd::utf8::decode_utf8(headers@),
        ),
{
    let decoded: String = decode_lossy(headers);
    content_length_from_text(decoded.as_str())
}

// ---- the parts of a request --------------------------------------------------------------

/// The body of a request; empty where its headers do not end.
pub open spec fn body_of(request: Seq<char>) -> Seq<char> {
    match header_end_in(request) {
        Some(end) => request.subrange(end + 4, request.len() as int),
        None => seq![],
    }
}

/// The headers of a request, with its first line; the whole request where they do not end.
pub open spec fn head_of(request: Seq<char>) -> Seq<char> {
    match header_end_in(request) {
        Some(end) => request.subrange(0, end),
        None => request,
    }
}

/// The value of a header of a request. The first line is no header, and an empty value is none.
pub open spec fn header_value(request: Seq<char>, name: Seq<char>) -> Option<Seq<char>> {
    match header_among(text::lines(head_of(request)), 1, name) {
        Some(value) => if value.len() > 0 {
            Some(value)
        } else {
            None
        },
        None => None,
    }
}

/// The body of the request; empty where its headers do not end.
pub fn http_request_body(request: &str) -> (r: &str)
    ensures
        r@ == body_of(request@),
{
    let chars: Vec<char> = text::chars_of(request);
    let length: usize = chars.len();
    match find_header_end_in(chars.as_slice()) {
        Some(end) => request.substring_char(end + 4, length),
        None => {
            let r = request.substring_char(0, 0);
            assert(r@ =~= seq![]);
            r
        },
    }
}

/// The value of a header of the request.
pub fn header_value_from_request(request: &str, header_name: &str) -> (r: Option<String>)
    ensures
        r.deep_view() == header_value(request@, header_name@),
{
    let chars: Vec<char> = text::chars_of(request);
    let end: usize = match find_header_end_in(chars.as_slice()) {
        Some(end) => end,
        None => chars.len(),
    };
    let head: String = text::string_of_range(chars.as_slice(), 0, end);
    assert(head@ =~= head_of(request@));
    let lines: Vec<String> = text::lines_of(head.as_str());
    let ghost texts = lines.deep_view();
    let mut k: usize = 1;
    while k < lines.len()
        invariant
            1 <= k,
            texts == lines.deep_view(),
            texts == text::lines(head_of(request@)),
            header_among(texts, k as int, header_name@) == header_among(texts, 1, header_name@),
        decreases lines@.len() - k,
    {
        assert(texts[k as int] == lines@[k as int]@);
        let value: Option<String> = header_on_line(lines[k].as_str(), header_name);
        match value {
            Some(value) => {
                if value.as_str().is_empty() {
                    return None;
                }
                return Some(value);
            },
            None => {},
        }
        k = k + 1;
    }
    None
}

// ---- the first line ----------------------------------------------------------------------

/// The first line of a request.
pub open spec fn first_line(request: Seq<char>) -> Seq<char> {
    let lines = text::lines(request);
    if lines.len() > 0 {
        lines[0]
    } else {
        seq![]
    }
}

/// The method that a first line names.
pub open spec fn method_on(line: Seq<char>) -> Seq<char> {
    text::word_from(line, 0)
}

/// The path that a first line names, without the query.
pub open spec fn path_on(line: Seq<char>) -> Seq<char> {
    let target = text::word_from(line, text::after_word(line, 0));
    target.subrange(0, text::index_from(target, '?', 0))
}

/// The path that a first line names holds no question mark, so that a query never tells two
/// requests apart.
pub proof fn path_has_no_query(line: Seq<char>)
    ensures
        !path_on(line).contains('?'),
{
    let target = text::word_from(line, text::after_word(line, 0));
    text::lemma_index_from(target, '?', 0);
    assert forall|k: int| 0 <= k < path_on(line).len() implies #[trigger] path_on(line)[k]
        != '?' by {
        assert(path_on(line)[k] == target[k]);
    }
}

/// What the helper reads of a request.
#[derive(Debug)]
pub struct HelperRequest {
    pub request_line: String,
    pub method: String,
    pub path: String,
    pub body: String,
    pub user_agent: Option<String>,
}

impl HelperRequest {
    /// Whether these are the parts of the request.
    pub open spec fn is_of(self, request: Seq<char>) -> bool {
        &&& self.request_line@ == first_line(request)
        &&& self.method@ == method_on(first_line(request))
        &&& self.path@ == path_on(first_line(request))
        &&& self.body@ == body_of(request)
        &&& self.user_agent.deep_view() == header_value(request, "user-agent"@)
    }
}

/// The parts of the request.
pub fn parse_helper_request(request: &str) -> (r: HelperRequest)
    ensures
        r.is_of(request@),
        r.body@ == body_of(request@),
        r.user_agent.deep_view() == header_value(request@, "user-agent"@),
{
    let mut lines: Vec<String> = text::lines_of(request);
    let ghost texts = lines.deep_view();
    let request_line: String = if lines.len() > 0 {
        assert(texts[0] == lines@[0]@);
        lines.swap_remove(0)
    } else {
        String::new()
    };
    assert(request_line@ =~= first_line(request@));
    let chars: Vec<char> = text::chars_of(request_line.as_str());
    let (method, behind) = text::next_word(chars.as_slice(), 0);
    let (target, _end) = text::next_word(chars.as_slice(), behind);
    let target_chars: Vec<char> = text::chars_of(target.as_str());
    let query: usize = text::find_char(target_chars.as_slice(), '?', 0);
    let path: String = text::string_of_range(target_chars.as_slice(), 0, query);
    HelperRequest {
        request_line,
        method,
        path,
        body: http_request_body(request).to_string(),
        user_agent: header_value_from_request(request, "user-agent"),
    }
}

/// The parts of the request that the bytes hold.
pub fn read_helper_request(bytes: &[u8]) -> (r: HelperRequest)
    ensures
        r.is_of(lossy_text(bytes@)),
        vstd::utf8::valid_utf8(bytes@) ==> r.is_of(vstd::utf8::decode_utf8(bytes@)),
{
    let request: String = decode_lossy(bytes);
    parse_helper_request(request.as_str())
}

// ---- receiving a request -----------------------------------------------------------------

/// What to do after a chunk of a request came.
#[derive(Debug, Clone, Copy, PartialEq, Eq, Structural)]
pub enum ReadStep {
    /// Read on.
    More,
    /// The request is there.
    Complete,
    /// The request is refused: it is too large.
    TooLarge,
}

/// The length of the body that the bytes of the headers declare, none counting as zero.
pub open spec fn declared_length(headers: Seq<u8>) -> nat {
    match content_length(lossy_text(headers)) {
        Some(length) => length as nat,
        None => 0,
    }
}

/// Whether the bytes hold the headers and as much of a body as they declare.
pub open spec fn holds_request(bytes: Seq<u8>) -> bool {
    match header_end(bytes) {
        Some(end) => bytes.len() >= end + 4 + declared_length(bytes.take(end)),
        None => false,
    }
}

/// What to do with the bytes received so far.
pub open spec fn step_after(received: nat, end: Option<int>, length: nat) -> ReadStep {
    if end is Some && received >= end->0 + 4 + length {
        ReadStep::Complete
    } else if received > MAX_REQUEST_BYTES {
        ReadStep::TooLarge
    } else {
        ReadStep::More
    }
}

/// What to do after `received` bytes, when the headers end at `end` and declare a body of
/// `length` bytes.
pub fn read_step(received: usize, end: Option<usize>, length: usize) -> (r: ReadStep)
    ensures
        r == step_after(received as nat, position(end), length as nat),
        r == ReadStep::Complete <==> end is Some && received >= end->0 + 4 + length,
        r == ReadStep::TooLarge <==> received > 33554432 && !(end is Some && received >= end->0 + 4
            + length),
{
    let complete = match end {
        Some(end) => received >= end && received - end >= 4 && received - end - 4 >= length,
        None => false,
    };
    if complete {
        ReadStep::Complete
    } else if received > MAX_REQUEST_BYTES {
        ReadStep::TooLarge
    } else {
        ReadStep::More
    }
}

/// A request that is being received: its bytes so far, where its headers end, and how long a
/// body they declare.
#[derive(Debug)]
pub struct RequestReader {
    buffer: Vec<u8>,
    header_end: Option<usize>,
    content_length: usize,
}

impl View for RequestReader {
    type V = Seq<u8>;

    closed spec fn view(&self) -> Seq<u8> {
        self.buffer@
    }
}

impl RequestReader {
    #[verifier::type_invariant]
    spec fn well_formed(self) -> bool {
        &&& position(self.header_end) == header_end(self.buffer@)
        &&& self.content_length == (match header_end(self.buffer@) {
            Some(end) => declared_length(self.buffer@.take(end)),
            None => 0,
        })
    }

    /// A request of which nothing has come.
    pub fn new() -> (r: RequestReader)
        ensures
            r@ == Seq::<u8>::empty(),
    {
        let buffer: Vec<u8> = Vec::new();
        RequestReader { buffer, header_end: None, content_length: 0 }
    }

    /// Takes in the next chunk, empty at the end of the stream, and says what to do.
    pub fn push(self, chunk: &[u8]) -> (r: (RequestReader, ReadStep))
        ensures
            r.0@ == self@ + chunk@,
            r.1 == (if chunk@.len() == 0 || holds_request(self@ + chunk@) {
                ReadStep::Complete
            } else if (self@ + chunk@).len() > MAX_REQUEST_BYTES {
                ReadStep::TooLarge
            } else {
                ReadStep::More
            }),
            r.1 == ReadStep::TooLarge ==> (self@ + chunk@).len() > 33554432,
            r.1 == ReadStep::More ==> (self@ + chunk@).len() <= 33554432 && chunk@.len() > 0,
    {
        proof {
            use_type_invariant(&self);
        }
        if chunk.len() == 0 {
            assert(self@ + chunk@ =~= self@);
            return (self, ReadStep::Complete);
        }
        let RequestReader { buffer, header_end, content_length } = self;
        let ghost old_bytes = buffer@;
        let mut buffer: Vec<u8> = buffer;
        let mut end: Option<usize> = header_end;
        let mut length: usize = content_length;
        buffer.extend_from_slice(chunk);
        assert(buffer@ =~= old_bytes + chunk@);
        match end {
            Some(at) => {
                proof {
                    header_end_is_stable(old_bytes, chunk@);
                    text::lemma_find_from(old_bytes, blank_line_bytes(), 0);
                    assert(buffer@.take(at as int) =~= old_bytes.take(at as int));
                }
            },
            None => {
                end = find_header_end(buffer.as_slice());
                match end {
                    Some(at) => {
                        let head: &[u8] = vstd::slice::slice_subrange(buffer.as_slice(), 0, at);
                        assert(head@ =~= buffer@.take(at as int));
                        length =
                        match content_length_from_headers(head) {
                            Some(declared) => declared,
                            None => 0,
                        };
                    },
                    None => {},
                }
            },
        }
        let step: ReadStep = read_step(buffer.len(), end, length);
        (RequestReader { buffer, header_end: end, content_length: length }, step)
    }

    /// The bytes that have come.
    pub fn into_bytes(self) -> (r: Vec<u8>)
        ensures
            r@ == self@,
    {
        self.buffer
    }
}

/// A request is there from the moment on at which as much of a body has come as its headers
/// declare, however its bytes were cut into chunks.
pub proof fn request_is_there_with_its_body(bytes: Seq<u8>, received: int)
    requires
        header_end(bytes) is Some,
        0 <= received <= bytes.len(),
    ensures
        holds_request(bytes.take(received)) == (received >= header_end(bytes)->0 + 4
            + declared_length(bytes.take(header_end(bytes)->0))),
{
    let end = header_end(bytes)->0;
    let part = blank_line_bytes();
    let so_far = bytes.take(received);
    text::lemma_find_from(bytes, part, 0);
    text::lemma_find_from(so_far, part, 0);
    assert forall|k: int| 0 <= k && k + 4 <= received implies text::stands_at(so_far, part, k)
        == text::stands_at(bytes, part, k) by {
        assert(so_far.subrange(k, k + 4) =~= bytes.subrange(k, k + 4));
    }
    if received >= end + 4 {
        assert(text::stands_at(so_far, part, end));
        assert forall|k: int| 0 <= k < end implies !text::stands_at(so_far, part, k) by {
            assert(!text::stands_at(bytes, part, k));
        }
        text::lemma_find_is(so_far, part, 0, end);
        assert(so_far.take(end) =~= bytes.take(end));
    } else if header_end(so_far) is Some {
        let at = header_end(so_far)->0;
        assert(text::stands_at(bytes, part, at));
    }
}

/// A request that is there stays there when more bytes come.
pub proof fn request_stays_there(bytes: Seq<u8>, more: Seq<u8>)
    requires
        holds_request(bytes),
    ensures
        holds_request(bytes + more),
{
    let end = header_end(bytes)->0;
    text::lemma_find_from(bytes, blank_line_bytes(), 0);
    header_end_is_stable(bytes, more);
    assert((bytes + more).take(end) =~= bytes.take(end));
}

} // verus!
