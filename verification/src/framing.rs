//! Raw HTTP/1.1 request construction and byte-level response framing: a
//! request is emitted as hand-built text, and the header/body boundary of a
//! response is found with a small cursor over `\r\n\r\n`.
use vstd::prelude::*;

verus! {

use vstd::string::*;

/// Carriage return, as a byte on the wire.
pub const CR: u8 = 13;

/// Line feed, as a byte on the wire.
pub const LF: u8 = 10;

/// An outgoing request: method, target, header key/value pairs, and the body
/// text sent verbatim after the blank line. No transfer encoding is applied
/// and no Content-Length is computed; a caller that needs one supplies it as
/// a header.
#[derive(Debug, Clone, PartialEq, Eq)]
pub struct Request {
    pub method: String,
    pub uri: String,
    pub headers: Vec<(String, String)>,
    pub body: String,
}

/// The view of a header list: each pair as character sequences.
pub open spec fn spec_header_views(headers: Seq<(String, String)>) -> Seq<(Seq<char>, Seq<char>)> {
    headers.map_values(|h: (String, String)| (h.0@, h.1@))
}

/// One emitted header line.
pub open spec fn spec_header_line(h: (Seq<char>, Seq<char>)) -> Seq<char> {
    h.0 + ": "@ + h.1 + "\r\n"@
}

/// The emitted header block: each pair as `Key: Value` and a line ending.
pub open spec fn spec_header_lines(headers: Seq<(Seq<char>, Seq<char>)>) -> Seq<char>
    decreases headers.len(),
{
    if headers.len() == 0 {
        Seq::<char>::empty()
    } else {
        spec_header_line(headers[0]) + spec_header_lines(headers.drop_first())
    }
}

/// The emitted request head: request line, header block, and the blank line
/// that terminates the headers.
pub open spec fn spec_request_head(
    method: Seq<char>,
    uri: Seq<char>,
    headers: Seq<(Seq<char>, Seq<char>)>,
) -> Seq<char> {
    method + " "@ + uri + " HTTP/1.1\r\n"@ + spec_header_lines(headers) + "\r\n"@
}

proof fn lemma_header_lines_snoc(hs: Seq<(Seq<char>, Seq<char>)>, h: (Seq<char>, Seq<char>))
    ensures
        spec_header_lines(hs.push(h)) == spec_header_lines(hs) + spec_header_line(h),
    decreases hs.len(),
{
    reveal_with_fuel(spec_header_lines, 3);
    if hs.len() == 0 {
        assert(hs.push(h)[0] == h);
        assert(hs.push(h).drop_first() =~= Seq::<(Seq<char>, Seq<char>)>::empty());
        assert(spec_header_lines(hs.push(h)) =~= spec_header_lines(hs) + spec_header_line(h));
    } else {
        assert(hs.push(h)[0] == hs[0]);
        assert(hs.push(h).drop_first() =~= hs.drop_first().push(h));
        lemma_header_lines_snoc(hs.drop_first(), h);
        assert(spec_header_lines(hs.push(h)) =~= spec_header_lines(hs) + spec_header_line(h));
    }
}

/// Emits the request head: `METHOD URI HTTP/1.1`, every header as
/// `Key: Value`, and the terminating blank line. The body is not included.
pub fn create_raw_request_no_body(request: &Request) -> (r: String)
    ensures
        r@ == spec_request_head(
            request.method@,
            request.uri@,
            spec_header_views(request.headers@),
        ),
{
    let ghost hview = spec_header_views(request.headers@);
    let mut text = String::new();
    text.append(request.method.as_str());
    text.append(" ");
    text.append(request.uri.as_str());
    text.append(" HTTP/1.1\r\n");
    let ghost head = request.method@ + " "@ + request.uri@ + " HTTP/1.1\r\n"@;
    proof {
        assert(text@ =~= head + spec_header_lines(hview.take(0)));
    }
    let mut i: usize = 0;
    while i < request.headers.len()
        invariant
            i <= request.headers@.len(),
            hview == spec_header_views(request.headers@),
            head == request.method@ + " "@ + request.uri@ + " HTTP/1.1\r\n"@,
            text@ == head + spec_header_lines(hview.take(i as int)),
        decreases request.headers@.len() - i,
    {
        let pair: &(String, String) = &request.headers[i];
        text.append(pair.0.as_str());
        text.append(": ");
        text.append(pair.1.as_str());
        text.append("\r\n");
        proof {
            assert(hview.take(i + 1) =~= hview.take(i as int).push(hview[i as int]));
            lemma_header_lines_snoc(hview.take(i as int), hview[i as int]);
            assert(hview[i as int] == (pair.0@, pair.1@));
            assert(text@ =~= head + spec_header_lines(hview.take(i + 1)));
        }
        i = i + 1;
    }
    text.append("\r\n");
    proof {
        assert(hview.take(hview.len() as int) =~= hview);
        assert(text@ =~= spec_request_head(request.method@, request.uri@, hview));
    }
    text
}

/// Emits the full request text: the head followed by the body verbatim.
pub fn create_raw_request(request: &Request) -> (r: String)
    ensures
        r@ == spec_request_head(
            request.method@,
            request.uri@,
            spec_header_views(request.headers@),
        ) + request.body@,
{
    let mut text = create_raw_request_no_body(request);
    text.append(request.body.as_str());
    text
}

/// Progress of the header/body boundary cursor toward `\r\n\r\n`: no
/// progress yet, a first carriage return seen, its line feed seen, the
/// second carriage return seen, or the full boundary found. Any byte that
/// breaks the pattern drops the cursor back to no progress.
#[derive(Debug, Clone, Copy, PartialEq, Eq, Structural)]
pub enum ScanState {
    Idle,
    FirstCr,
    FirstNl,
    SecondCr,
    Found,
}

/// The cursor after one more byte.
pub open spec fn spec_advance(s: ScanState, b: u8) -> ScanState {
    match s {
        ScanState::Idle => if b == CR {
            ScanState::FirstCr
        } else {
            ScanState::Idle
        },
        ScanState::FirstCr => if b == LF {
            ScanState::FirstNl
        } else {
            ScanState::Idle
        },
        ScanState::FirstNl => if b == CR {
            ScanState::SecondCr
        } else {
            ScanState::Idle
        },
        ScanState::SecondCr => if b == LF {
            ScanState::Found
        } else {
            ScanState::Idle
        },
        ScanState::Found => ScanState::Found,
    }
}

/// Advances the boundary cursor by one byte read from the stream.
pub fn advance(s: ScanState, b: u8) -> (r: ScanState)
    ensures
        r == spec_advance(s, b),
{
    match s {
        ScanState::Idle => if b == CR {
            ScanState::FirstCr
        } else {
            ScanState::Idle
        },
        ScanState::FirstCr => if b == LF {
            ScanState::FirstNl
        } else {
            ScanState::Idle
        },
        ScanState::FirstNl => if b == CR {
            ScanState::SecondCr
        } else {
            ScanState::Idle
        },
        ScanState::SecondCr => if b == LF {
            ScanState::Found
        } else {
            ScanState::Idle
        },
        ScanState::Found => ScanState::Found,
    }
}

/// The cursor after a whole byte sequence, read one byte at a time.
pub open spec fn spec_scan(s: ScanState, bytes: Seq<u8>) -> ScanState
    decreases bytes.len(),
{
    if bytes.len() == 0 {
        s
    } else {
        spec_scan(spec_advance(s, bytes[0]), bytes.drop_first())
    }
}

/// Feeding one more byte to a scan is advancing the scan of the prefix.
pub proof fn lemma_scan_snoc(s: ScanState, bytes: Seq<u8>, b: u8)
    ensures
        spec_scan(s, bytes.push(b)) == spec_advance(spec_scan(s, bytes), b),
    decreases bytes.len(),
{
    reveal_with_fuel(spec_scan, 3);
    if bytes.len() == 0 {
        assert(bytes.push(b)[0] == b);
        assert(bytes.push(b).drop_first() =~= Seq::<u8>::empty());
    } else {
        assert(bytes.push(b)[0] == bytes[0]);
        assert(bytes.push(b).drop_first() =~= bytes.drop_first().push(b));
        lemma_scan_snoc(spec_advance(s, bytes[0]), bytes.drop_first(), b);
    }
}

/// The number of bytes the cursor consumes before the headers end: the least
/// prefix of `bytes` whose scan reaches `Found`, if any. Everything after
/// that prefix is body.
pub fn find_headers_end(bytes: &[u8]) -> (r: Option<usize>)
    ensures
        match r {
            Some(i) => i <= bytes@.len() && spec_scan(ScanState::Idle, bytes@.take(i as int))
                is Found && (forall|j: int|
                0 <= j < i ==> !(spec_scan(ScanState::Idle, bytes@.take(j)) is Found)),
            None => forall|j: int|
                0 <= j <= bytes@.len() ==> !(spec_scan(ScanState::Idle, bytes@.take(j)) is Found),
        },
{
    let mut state = ScanState::Idle;
    let mut i: usize = 0;
    while i < bytes.len()
        invariant
            i <= bytes@.len(),
            state == spec_scan(ScanState::Idle, bytes@.take(i as int)),
            !(state is Found),
            forall|j: int| 0 <= j <= i ==> !(spec_scan(ScanState::Idle, bytes@.take(j)) is Found),
        decreases bytes@.len() - i,
    {
        state = advance(state, bytes[i]);
        proof {
            assert(bytes@.take(i + 1) =~= bytes@.take(i as int).push(bytes@[i as int]));
            lemma_scan_snoc(ScanState::Idle, bytes@.take(i as int), bytes@[i as int]);
        }
        i = i + 1;
        if matches!(state, ScanState::Found) {
            return Some(i);
        }
    }
    None
}

/// The four boundary bytes between headers and body.
pub open spec fn spec_boundary() -> Seq<u8> {
    seq![CR, LF, CR, LF]
}

/// The boundary stands at position `i` of `bytes`.
pub open spec fn is_boundary_at(bytes: Seq<u8>, i: int) -> bool {
    0 <= i && i + 4 <= bytes.len() && bytes.subrange(i, i + 4) == spec_boundary()
}

/// The first boundary position at or after `i`, if any.
pub open spec fn first_boundary_from(bytes: Seq<u8>, i: int) -> Option<int>
    decreases bytes.len() - i,
{
    if i < 0 || i + 4 > bytes.len() {
        None
    } else if is_boundary_at(bytes, i) {
        Some(i)
    } else {
        first_boundary_from(bytes, i + 1)
    }
}

/// The position of the first `\r\n\r\n` of the byte sequence, if any.
pub open spec fn spec_first_boundary(bytes: Seq<u8>) -> Option<int> {
    first_boundary_from(bytes, 0)
}

/// The position of the first `\r\n\r\n` in a fully buffered response, by
/// plain substring search; the body starts 4 bytes later.
pub fn find_crlfcrlf(bytes: &[u8]) -> (r: Option<usize>)
    ensures
        match r {
            Some(i) => spec_first_boundary(bytes@) == Some(i as int) && is_boundary_at(
                bytes@,
                i as int,
            ) && (forall|j: int| 0 <= j < i ==> !is_boundary_at(bytes@, j)),
            None => spec_first_boundary(bytes@) is None && (forall|j: int|
                !is_boundary_at(bytes@, j)),
        },
{
    if bytes.len() < 4 {
        return None;
    }
    let mut i: usize = 0;
    while i <= bytes.len() - 4
        invariant
            bytes@.len() >= 4,
            i <= bytes@.len() - 3,
            forall|j: int| 0 <= j < i ==> !is_boundary_at(bytes@, j),
            spec_first_boundary(bytes@) == first_boundary_from(bytes@, i as int),
        decreases bytes@.len() - i,
    {
        if bytes[i] == CR && bytes[i + 1] == LF && bytes[i + 2] == CR && bytes[i + 3] == LF {
            proof {
                assert(bytes@.subrange(i as int, i + 4) =~= spec_boundary());
            }
            return Some(i);
        }
        proof {
            assert(!is_boundary_at(bytes@, i as int)) by {
                if is_boundary_at(bytes@, i as int) {
                    assert(bytes@.subrange(i as int, i + 4)[0] == bytes@[i as int]);
                    assert(bytes@.subrange(i as int, i + 4)[1] == bytes@[i + 1]);
                    assert(bytes@.subrange(i as int, i + 4)[2] == bytes@[i + 2]);
                    assert(bytes@.subrange(i as int, i + 4)[3] == bytes@[i + 3]);
                }
            };
        }
        i = i + 1;
    }
    proof {
        assert(forall|j: int| j >= i ==> !is_boundary_at(bytes@, j));
        assert(first_boundary_from(bytes@, i as int) is None);
    }
    None
}

} // verus!
