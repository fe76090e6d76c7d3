//! Network-facing pieces that are pure computation: scanning response
//! headers for the redirect target, naming the host to connect to for a
//! URL, and the credentials of the networks the device may join.
use vstd::prelude::*;

verus! {

use crate::UpdateError;
use crate::framing::CR;
use crate::framing::LF;
use crate::manifest::utf8_to_string;
use vstd::string::*;

/// An ASCII letter folded to lower case; every other byte unchanged.
pub open spec fn lower_byte(b: u8) -> u8 {
    if 65 <= b && b <= 90 {
        (b + 32) as u8
    } else {
        b
    }
}

fn lower_byte_exec(b: u8) -> (r: u8)
    ensures
        r == lower_byte(b),
{
    if 65 <= b && b <= 90 {
        b + 32
    } else {
        b
    }
}

/// The bytes of `location: `, the case-folded header prefix looked for.
pub open spec fn location_prefix() -> Seq<u8> {
    seq![0x6c, 0x6f, 0x63, 0x61, 0x74, 0x69, 0x6f, 0x6e, 0x3a, 0x20]
}

/// The bytes of `location: ` as a vector.
fn location_prefix_vec() -> (r: Vec<u8>)
    ensures
        r@ == location_prefix(),
{
    let mut r: Vec<u8> = Vec::new();
    r.push(0x6c);
    r.push(0x6f);
    r.push(0x63);
    r.push(0x61);
    r.push(0x74);
    r.push(0x69);
    r.push(0x6f);
    r.push(0x6e);
    r.push(0x3a);
    r.push(0x20);
    proof {
        assert(r@ =~= location_prefix());
    }
    r
}

/// Position `i` begins a header line: the start of the buffer, or the
/// position right after a `\r\n`.
pub open spec fn is_line_start(bytes: Seq<u8>, i: int) -> bool {
    i == 0 || (i >= 2 && bytes[i - 2] == CR && bytes[i - 1] == LF)
}

/// A case-insensitive `Location: ` header begins at position `i`.
pub open spec fn is_location_at(bytes: Seq<u8>, i: int) -> bool {
    &&& 0 <= i
    &&& i + 10 <= bytes.len()
    &&& is_line_start(bytes, i)
    &&& Seq::new(10, |k: int| lower_byte(bytes[i + k])) == location_prefix()
}

/// The end of the line starting at or containing position `j`: the next
/// carriage return, or the end of the buffer.
pub open spec fn line_end_from(bytes: Seq<u8>, j: int) -> int
    decreases bytes.len() - j,
{
    if j < 0 || j >= bytes.len() {
        bytes.len() as int
    } else if bytes[j] == CR {
        j
    } else {
        line_end_from(bytes, j + 1)
    }
}

/// The first `Location: ` header at or after position `i`.
pub open spec fn find_location_from(bytes: Seq<u8>, i: int) -> Option<int>
    decreases bytes.len() - i,
{
    if i < 0 || i + 10 > bytes.len() {
        None
    } else if is_location_at(bytes, i) {
        Some(i)
    } else {
        find_location_from(bytes, i + 1)
    }
}

/// The value of the first case-insensitive `Location: ` header of the
/// response: the bytes between the prefix and its line's end.
pub open spec fn spec_find_location(bytes: Seq<u8>) -> Option<Seq<u8>> {
    match find_location_from(bytes, 0) {
        Option::None => Option::None,
        Option::Some(i) => Option::Some(bytes.subrange(i + 10, line_end_from(bytes, i + 10))),
    }
}

fn location_prefix_at(bytes: &[u8], i: usize) -> (r: bool)
    requires
        i + 10 <= bytes@.len(),
    ensures
        r == (Seq::new(10, |k: int| lower_byte(bytes@[i + k])) == location_prefix()),
{
    let p = location_prefix_vec();
    let n = bytes.len();
    let mut k: usize = 0;
    while k < 10
        invariant
            i + 10 <= n,
            n == bytes@.len(),
            k <= 10,
            p@ == location_prefix(),
            forall|j: int| 0 <= j < k ==> lower_byte(bytes@[i + j]) == location_prefix()[j],
        decreases 10 - k,
    {
        if lower_byte_exec(bytes[i + k]) != p[k] {
            proof {
                assert(Seq::new(10, |j: int| lower_byte(bytes@[i + j]))[k as int] != location_prefix()[k as int]);
            }
            return false;
        }
        k = k + 1;
    }
    proof {
        assert(Seq::new(10, |j: int| lower_byte(bytes@[i + j])) =~= location_prefix());
    }
    true
}

/// Scans buffered response headers for the first case-insensitive
/// `Location: ` header and hands back its value bytes.
pub fn find_location(bytes: &[u8]) -> (r: Option<Vec<u8>>)
    ensures
        match r {
            Some(v) => spec_find_location(bytes@) == Some(v@),
            None => spec_find_location(bytes@) is None,
        },
{
    let n = bytes.len();
    if n < 10 {
        return None;
    }
    let mut i: usize = 0;
    while i <= n - 10
        invariant
            n == bytes@.len(),
            n >= 10,
            i <= n - 9,
            find_location_from(bytes@, 0) == find_location_from(bytes@, i as int),
        decreases n - i,
    {
        let line_start: bool = if i == 0 {
            true
        } else {
            i >= 2 && bytes[i - 2] == CR && bytes[i - 1] == LF
        };
        if line_start && location_prefix_at(bytes, i) {
            proof {
                assert(is_location_at(bytes@, i as int));
                assert(find_location_from(bytes@, i as int) == Some(i as int));
            }
            let mut j: usize = i + 10;
            while j < n && bytes[j] != CR
                invariant
                    n == bytes@.len(),
                    i + 10 <= j <= n,
                    line_end_from(bytes@, i + 10) == line_end_from(bytes@, j as int),
                decreases n - j,
            {
                j = j + 1;
            }
            proof {
                assert(line_end_from(bytes@, j as int) == j as int);
            }
            let v = vstd::slice::slice_to_vec(vstd::slice::slice_subrange(bytes, i + 10, j));
            return Some(v);
        }
        proof {
            assert(!is_location_at(bytes@, i as int));
            assert(find_location_from(bytes@, i as int) == find_location_from(bytes@, i + 1));
        }
        i = i + 1;
    }
    proof {
        assert(find_location_from(bytes@, i as int) is None);
    }
    None
}

/// What following the single supported redirect hop must yield: the
/// `Location` value as text, a protocol violation when the header is
/// missing, and a decode failure when its value is not UTF-8.
pub open spec fn spec_redirect_target(raw: Seq<u8>) -> Result<Seq<char>, UpdateError> {
    match spec_find_location(raw) {
        Option::None => Err(UpdateError::ProtocolViolation),
        Option::Some(v) => if vstd::utf8::valid_utf8(v) {
            Ok(vstd::utf8::decode_utf8(v))
        } else {
            Err(UpdateError::Decode)
        },
    }
}

/// The redirect target named by the buffered response headers. A response
/// without a `Location` header is a fatal protocol violation: exactly one
/// redirect hop is supported, and the content host must be named by it.
pub fn redirect_target(raw: &[u8]) -> (r: Result<String, UpdateError>)
    ensures
        match spec_redirect_target(raw@) {
            Ok(s) => (r matches Ok(u) && u@ == s),
            Err(e) => r == Err::<String, UpdateError>(e),
        },
{
    match find_location(raw) {
        None => Err(UpdateError::ProtocolViolation),
        Some(v) => match utf8_to_string(v.as_slice()) {
            None => Err(UpdateError::Decode),
            Some(s) => {
                proof {
                    vstd::utf8::encode_utf8_decode_utf8(s@);
                }
                Ok(s)
            },
        },
    }
}

/// What `url::Url::parse` makes of a URL string: its host component,
/// where the string parses as a URL with a host, and nothing otherwise.
pub uninterp spec fn url_host(s: Seq<char>) -> Option<Seq<char>>;

/// Relies on `url::Url::parse` and `url::Url::host_str`: whether a string
/// parses as a URL with a host, and what that (normalized) host is, is a
/// function of the characters alone.
#[verifier::external_body]
fn parse_url_host(s: &str) -> (r: Option<String>)
    ensures
        match r {
            Some(h) => url_host(s@) == Some(h@),
            None => url_host(s@) is None,
        },
{
    match url::Url::parse(s) {
        Ok(u) => u.host_str().map(|h| h.to_string()),
        Err(_) => None,
    }
}

/// The host and port a secure connection for `url` must be opened to:
/// the URL's host, on the https port.
pub fn connect_target(url: &str) -> (r: Option<(String, u16)>)
    ensures
        match url_host(url@) {
            Some(h) => (r matches Some(t) && t.0@ == h && t.1 == 443u16),
            None => r is None,
        },
{
    match parse_url_host(url) {
        Some(h) => Some((h, 443)),
        None => None,
    }
}

/// The credentials of one network the device may join.
#[derive(Debug, Clone, PartialEq, Eq)]
pub enum NetworkSetupInfo {
    Enterprise { ssid: String, email: String, username: String, password: String },
    Personal { ssid: String, password: String },
}

impl NetworkSetupInfo {
    /// The network's SSID.
    pub open spec fn spec_ssid(&self) -> Seq<char> {
        match self {
            NetworkSetupInfo::Enterprise { ssid, .. } => ssid@,
            NetworkSetupInfo::Personal { ssid, .. } => ssid@,
        }
    }

    /// The notice logged before an attempt to join this network; the
    /// caller prints it.
    pub fn print_debug(&self) -> (r: String)
        ensures
            r@ == "Attempting to connect to '"@ + self.spec_ssid() + "'"@,
    {
        let mut text = String::new();
        text.append("Attempting to connect to '");
        match self {
            NetworkSetupInfo::Enterprise { ssid, .. } => text.append(ssid.as_str()),
            NetworkSetupInfo::Personal { ssid, .. } => text.append(ssid.as_str()),
        }
        text.append("'");
        proof {
            assert(text@ =~= "Attempting to connect to '"@ + self.spec_ssid() + "'"@);
        }
        text
    }
}

} // verus!
