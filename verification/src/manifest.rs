//! Release manifest resolution: decode the buffered response from the
//! release endpoint, compare the remote tag against the running version
//! under standard semantic-version ordering, and select the binary asset
//! for the running build flavor.
use vstd::prelude::*;

verus! {

use crate::UpdateError;
use crate::str_equal;
use crate::framing::spec_first_boundary;
use crate::framing::find_crlfcrlf;
use vstd::string::*;

/// A release number: major, minor and patch.
#[derive(Debug, Clone, Copy, PartialEq, Eq, Structural)]
pub struct Version {
    pub major: u64,
    pub minor: u64,
    pub patch: u64,
}

/// Standard semantic-version ordering on release numbers: major first,
/// then minor, then patch.
pub open spec fn spec_version_gt(a: Version, b: Version) -> bool {
    ||| a.major > b.major
    ||| (a.major == b.major && a.minor > b.minor)
    ||| (a.major == b.major && a.minor == b.minor && a.patch > b.patch)
}

/// True exactly when `a` is a strictly newer release than `b`.
pub fn version_gt(a: Version, b: Version) -> (r: bool)
    ensures
        r == spec_version_gt(a, b),
{
    if a.major != b.major {
        a.major > b.major
    } else if a.minor != b.minor {
        a.minor > b.minor
    } else {
        a.patch > b.patch
    }
}

/// Which firmware variant this build is; each release carries one binary
/// asset per flavor.
#[derive(Debug, Clone, Copy, PartialEq, Eq, Structural)]
pub enum BuildFlavor {
    Interactive,
    Passive,
}

/// The asset file name a release must offer for the given flavor.
pub open spec fn spec_expected_asset_name(flavor: BuildFlavor) -> Seq<char> {
    match flavor {
        BuildFlavor::Interactive => "sign-firmware.bin"@,
        BuildFlavor::Passive => "sign-firmware-passive.bin"@,
    }
}

/// The asset file name a release must offer for the given flavor.
pub fn expected_asset_name(flavor: BuildFlavor) -> (r: &'static str)
    ensures
        r@ == spec_expected_asset_name(flavor),
{
    match flavor {
        BuildFlavor::Interactive => "sign-firmware.bin",
        BuildFlavor::Passive => "sign-firmware-passive.bin",
    }
}

/// One downloadable file of a release.
#[derive(Debug, Clone, PartialEq, Eq)]
pub struct Asset {
    pub name: String,
    pub browser_download_url: String,
}

/// The decoded release descriptor: its version tag and its assets.
#[derive(Debug, Clone, PartialEq, Eq)]
pub struct Manifest {
    pub tag_name: String,
    pub assets: Vec<Asset>,
}

/// The view of an asset list: each asset as its (name, url) pair.
pub open spec fn spec_assets(assets: Seq<Asset>) -> Seq<(Seq<char>, Seq<char>)> {
    assets.map_values(|a: Asset| (a.name@, a.browser_download_url@))
}

/// How many leading elements of `s` satisfy `p`.
pub open spec fn count_leading<T>(s: Seq<T>, p: spec_fn(T) -> bool) -> int
    decreases s.len(),
{
    if s.len() == 0 || !p(s[0]) {
        0
    } else {
        1 + count_leading(s.drop_first(), p)
    }
}

/// How many trailing elements of `s` satisfy `p`.
pub open spec fn count_trailing<T>(s: Seq<T>, p: spec_fn(T) -> bool) -> int
    decreases s.len(),
{
    if s.len() == 0 || !p(s.last()) {
        0
    } else {
        1 + count_trailing(s.drop_last(), p)
    }
}

/// `count_leading` is the position of the first element failing `p`.
pub proof fn lemma_count_leading<T>(s: Seq<T>, p: spec_fn(T) -> bool, i: int)
    requires
        0 <= i <= s.len(),
        forall|j: int| 0 <= j < i ==> p(#[trigger] s[j]),
        i < s.len() ==> !p(s[i]),
    ensures
        count_leading(s, p) == i,
    decreases i,
{
    if i == 0 {
    } else {
        assert(p(s[0]));
        lemma_count_leading(s.drop_first(), p, i - 1);
    }
}

/// `count_trailing` is the length of the longest suffix all of whose
/// elements satisfy `p`.
pub proof fn lemma_count_trailing<T>(s: Seq<T>, p: spec_fn(T) -> bool, k: int)
    requires
        0 <= k <= s.len(),
        forall|j: int| s.len() - k <= j < s.len() ==> p(#[trigger] s[j]),
        k < s.len() ==> !p(s[s.len() - k - 1]),
    ensures
        count_trailing(s, p) == k,
    decreases k,
{
    if k == 0 {
    } else {
        assert(p(s.last()));
        lemma_count_trailing(s.drop_last(), p, k - 1);
    }
}

/// ASCII whitespace, as a response buffer may carry around the JSON body.
pub open spec fn is_ascii_ws(b: u8) -> bool {
    b == 32 || b == 9 || b == 10 || b == 13
}

/// The whitespace test, as a function value shared by specs and proofs.
pub open spec fn ws_pred() -> spec_fn(u8) -> bool {
    |b: u8| is_ascii_ws(b)
}

/// The padding-byte test: a zero-filled read buffer pads the body with NULs.
pub open spec fn nul_pred() -> spec_fn(u8) -> bool {
    |b: u8| b == 0u8
}

/// An ASCII decimal digit.
pub open spec fn is_digit_char(c: char) -> bool {
    48 <= c as u32 && c as u32 <= 57
}

/// The non-digit test, as a function value shared by specs and proofs.
pub open spec fn nondigit_pred() -> spec_fn(char) -> bool {
    |c: char| !is_digit_char(c)
}

/// The body with surrounding ASCII whitespace removed, then trailing NUL
/// padding removed: what is handed to the JSON decoder.
pub open spec fn spec_trim_body(bytes: Seq<u8>) -> Seq<u8> {
    let s = bytes.subrange(count_leading(bytes, ws_pred()), bytes.len() as int);
    let s2 = s.subrange(0, s.len() - count_trailing(s, ws_pred()));
    s2.subrange(0, s2.len() - count_trailing(s2, nul_pred()))
}

fn is_ws_byte(b: u8) -> (r: bool)
    ensures
        r == is_ascii_ws(b),
{
    b == 32 || b == 9 || b == 10 || b == 13
}

/// Strips surrounding ASCII whitespace and then trailing NUL padding from
/// a buffered response body.
pub fn trim_body(bytes: &[u8]) -> (r: Vec<u8>)
    ensures
        r@ == spec_trim_body(bytes@),
{
    let len = bytes.len();
    let mut start: usize = 0;
    while start < len && is_ws_byte(bytes[start])
        invariant
            len == bytes@.len(),
            start <= len,
            forall|j: int| 0 <= j < start ==> is_ascii_ws(#[trigger] bytes@[j]),
        decreases len - start,
    {
        start = start + 1;
    }
    proof {
        lemma_count_leading(bytes@, ws_pred(), start as int);
    }
    let mut end: usize = len;
    while end > start && is_ws_byte(bytes[end - 1])
        invariant
            len == bytes@.len(),
            start <= end <= len,
            forall|j: int| end <= j < len ==> is_ascii_ws(#[trigger] bytes@[j]),
        decreases end,
    {
        end = end - 1;
    }
    let ghost s = bytes@.subrange(start as int, len as int);
    proof {
        assert forall|j: int| s.len() - (len - end) <= j < s.len() implies ws_pred()(
            #[trigger] s[j],
        ) by {
            assert(s[j] == bytes@[start + j]);
        }
        if (len - end) < s.len() {
            assert(s[s.len() - (len - end) - 1] == bytes@[end - 1]);
        }
        lemma_count_trailing(s, ws_pred(), len - end);
    }
    let mut end2: usize = end;
    while end2 > start && bytes[end2 - 1] == 0
        invariant
            len == bytes@.len(),
            start <= end2 <= end <= len,
            forall|j: int| end2 <= j < end ==> #[trigger] bytes@[j] == 0,
        decreases end2,
    {
        end2 = end2 - 1;
    }
    let ghost s2 = s.subrange(0, (end - start) as int);
    proof {
        assert forall|j: int| s2.len() - (end - end2) <= j < s2.len() implies nul_pred()(
            #[trigger] s2[j],
        ) by {
            assert(s2[j] == bytes@[start + j]);
        }
        if (end - end2) < s2.len() {
            assert(s2[s2.len() - (end - end2) - 1] == bytes@[end2 - 1]);
        }
        lemma_count_trailing(s2, nul_pred(), end - end2);
    }
    let out = vstd::slice::slice_to_vec(vstd::slice::slice_subrange(bytes, start, end2));
    proof {
        assert(s2 =~= s.subrange(0, s.len() - count_trailing(s, ws_pred())));
        assert(out@ =~= s2.subrange(0, s2.len() - count_trailing(s2, nul_pred())));
    }
    out
}

/// The tag with its leading non-digit prefix removed, so that tags such as
/// a `v`-prefixed release name parse as a plain version.
pub open spec fn spec_strip_version_prefix(tag: Seq<char>) -> Seq<char> {
    tag.subrange(count_leading(tag, nondigit_pred()), tag.len() as int)
}

fn char_is_digit(c: char) -> (r: bool)
    ensures
        r == is_digit_char(c),
{
    let u = c as u32;
    48 <= u && u <= 57
}

/// Strips the leading non-digit prefix from a release tag.
pub fn strip_version_prefix<'a>(s: &'a str) -> (r: &'a str)
    ensures
        r@ == spec_strip_version_prefix(s@),
{
    let n = s.unicode_len();
    let mut i: usize = 0;
    while i < n && !char_is_digit(s.get_char(i))
        invariant
            n == s@.len(),
            i <= n,
            forall|j: int| 0 <= j < i ==> !is_digit_char(#[trigger] s@[j]),
        decreases n - i,
    {
        i = i + 1;
    }
    proof {
        lemma_count_leading(s@, nondigit_pred(), i as int);
    }
    s.substring_char(i, n)
}

/// What `semver::Version::parse` makes of a string: the major, minor and
/// patch numbers where the string is a valid semantic version, with
/// pre-release and build metadata discarded, and nothing otherwise.
pub uninterp spec fn semver_parts(s: Seq<char>) -> Option<(u64, u64, u64)>;

/// Relies on `semver::Version::parse`: whether a string parses as a
/// semantic version, and which major, minor and patch numbers it carries,
/// is a function of the characters alone.
#[verifier::external_body]
fn parse_semver(s: &str) -> (r: Option<(u64, u64, u64)>)
    ensures
        r == semver_parts(s@),
{
    match semver::Version::parse(s) {
        Ok(v) => Some((v.major, v.minor, v.patch)),
        Err(_) => None,
    }
}

/// Parses a release number, dropping any pre-release or build metadata.
pub fn parse_version(s: &str) -> (r: Option<Version>)
    ensures
        match semver_parts(s@) {
            Some(t) => r == Some(Version { major: t.0, minor: t.1, patch: t.2 }),
            None => r is None,
        },
{
    match parse_semver(s) {
        Some(t) => Some(Version { major: t.0, minor: t.1, patch: t.2 }),
        None => None,
    }
}

/// What the JSON decoder makes of a release body: the tag string and the
/// (name, download url) pair of every asset, in order, where the bytes are
/// a JSON object of the release shape, and nothing otherwise.
pub uninterp spec fn manifest_json(bytes: Seq<u8>) -> Option<
    (Seq<char>, Seq<(Seq<char>, Seq<char>)>),
>;

/// Relies on `serde_json::from_slice` (via `serde_json::Value`): whether
/// the bytes are a JSON object with a string `tag_name` and an `assets`
/// array of objects with string `name` and `browser_download_url`, and
/// what those strings are, is a function of the bytes alone.
#[verifier::external_body]
fn parse_manifest_bytes(bytes: &[u8]) -> (r: Option<Manifest>)
    ensures
        match r {
            Some(m) => manifest_json(bytes@) == Some((m.tag_name@, spec_assets(m.assets@))),
            None => manifest_json(bytes@) is None,
        },
{
    let v: serde_json::Value = serde_json::from_slice(bytes).ok()?;
    let tag_name = v.get("tag_name")?.as_str()?.to_string();
    let assets = v.get("assets")?.as_array()?.iter().map(|a|
        Some(Asset {
            name: a.get("name")?.as_str()?.to_string(),
            browser_download_url: a.get("browser_download_url")?.as_str()?.to_string(),
        })).collect::<Option<Vec<Asset>>>()?;
    Some(Manifest { tag_name, assets })
}

/// Relies on `str::from_utf8` (plus an owned copy of its result): it
/// succeeds exactly on valid UTF-8, and the returned string encodes back
/// to the input bytes.
#[verifier::external_body]
pub(crate) fn utf8_to_string(bytes: &[u8]) -> (r: Option<String>)
    ensures
        r is Some <==> vstd::utf8::valid_utf8(bytes@),
        (r matches Some(s) ==> vstd::utf8::encode_utf8(s@) == bytes@),
{
    match core::str::from_utf8(bytes) {
        Ok(s) => Some(s.to_string()),
        Err(_) => None,
    }
}

/// The first asset at or after position `i` whose name is `want`.
pub open spec fn find_asset_from(
    assets: Seq<(Seq<char>, Seq<char>)>,
    want: Seq<char>,
    i: int,
) -> Option<int>
    decreases assets.len() - i,
{
    if i < 0 || i >= assets.len() {
        None
    } else if assets[i].0 == want {
        Some(i)
    } else {
        find_asset_from(assets, want, i + 1)
    }
}

/// The first asset whose name is `want`, if any.
pub open spec fn spec_find_asset(assets: Seq<(Seq<char>, Seq<char>)>, want: Seq<char>) -> Option<
    int,
> {
    find_asset_from(assets, want, 0)
}

/// The download url of the first asset whose name exactly matches the
/// expected file name for the build flavor.
pub fn select_asset(manifest: &Manifest, flavor: BuildFlavor) -> (r: Option<String>)
    ensures
        match spec_find_asset(spec_assets(manifest.assets@), spec_expected_asset_name(flavor)) {
            Some(i) => (r matches Some(u) && u@ == spec_assets(manifest.assets@)[i].1),
            None => r is None,
        },
{
    let ghost av = spec_assets(manifest.assets@);
    let ghost w = spec_expected_asset_name(flavor);
    let want = expected_asset_name(flavor);
    let mut i: usize = 0;
    while i < manifest.assets.len()
        invariant
            av == spec_assets(manifest.assets@),
            w == spec_expected_asset_name(flavor),
            want@ == w,
            i <= manifest.assets@.len(),
            av.len() == manifest.assets@.len(),
            spec_find_asset(av, w) == find_asset_from(av, w, i as int),
        decreases manifest.assets@.len() - i,
    {
        let a = &manifest.assets[i];
        proof {
            assert(av[i as int] == (a.name@, a.browser_download_url@));
        }
        if str_equal(a.name.as_str(), want) {
            return Some(a.browser_download_url.clone());
        }
        i = i + 1;
    }
    None
}

/// What resolving an update from the raw manifest response must yield:
/// a decode failure on malformed UTF-8, JSON or version text; a protocol
/// violation when the header boundary or the flavor's asset is missing;
/// no update when the remote release is not strictly newer; and otherwise
/// the download url of the matching asset.
pub open spec fn spec_resolve(raw: Seq<u8>, flavor: BuildFlavor, local: Version) -> Result<
    Option<Seq<char>>,
    UpdateError,
> {
    if !vstd::utf8::valid_utf8(raw) {
        Err(UpdateError::Decode)
    } else {
        match spec_first_boundary(raw) {
            Option::None => Err(UpdateError::ProtocolViolation),
            Option::Some(i) => {
                let body = spec_trim_body(raw.subrange(i + 4, raw.len() as int));
                match manifest_json(body) {
                    Option::None => Err(UpdateError::Decode),
                    Option::Some(m) => match semver_parts(spec_strip_version_prefix(m.0)) {
                        Option::None => Err(UpdateError::Decode),
                        Option::Some(t) => {
                            let remote = Version { major: t.0, minor: t.1, patch: t.2 };
                            if !spec_version_gt(remote, local) {
                                Ok(Option::None)
                            } else {
                                match spec_find_asset(m.1, spec_expected_asset_name(flavor)) {
                                    Option::None => Err(UpdateError::ProtocolViolation),
                                    Option::Some(j) => Ok(Option::Some(m.1[j].1)),
                                }
                            }
                        },
                    },
                }
            },
        }
    }
}

/// The remote release number a response names: its tag, prefix-stripped
/// and parsed, where the response frames and decodes at all.
pub open spec fn spec_remote_version(raw: Seq<u8>) -> Option<Version> {
    match spec_first_boundary(raw) {
        Option::None => Option::None,
        Option::Some(i) => match manifest_json(spec_trim_body(raw.subrange(i + 4, raw.len() as int))) {
            Option::None => Option::None,
            Option::Some(m) => match semver_parts(spec_strip_version_prefix(m.0)) {
                Option::None => Option::None,
                Option::Some(t) => Option::Some(Version { major: t.0, minor: t.1, patch: t.2 }),
            },
        },
    }
}

/// Version gating: resolution offers an asset only when the remote release
/// is strictly newer than the running version, and resolves to "no update"
/// exactly when the remote release parses but is not newer.
pub proof fn lemma_update_gated_on_version(raw: Seq<u8>, flavor: BuildFlavor, local: Version)
    ensures
        (spec_resolve(raw, flavor, local) matches Ok(o) && o is Some) ==> (spec_remote_version(raw)
            matches Some(remote) && spec_version_gt(remote, local)),
        (spec_resolve(raw, flavor, local) matches Ok(o) && o is None) ==> (spec_remote_version(raw)
            matches Some(remote) && !spec_version_gt(remote, local)),
{
}

/// Resolves the buffered response from the release endpoint: decodes it,
/// gates on the semantic version against the running one, and picks the
/// asset for the build flavor. `Ok(None)` means the device is current —
/// not an error.
pub fn resolve_update(raw: &[u8], flavor: BuildFlavor, local: Version) -> (r: Result<
    Option<String>,
    UpdateError,
>)
    ensures
        match spec_resolve(raw@, flavor, local) {
            Ok(o) => (r matches Ok(ro) && (match o {
                Option::Some(s) => ro matches Some(u) && u@ == s,
                Option::None => ro is None,
            })),
            Err(e) => r == Err::<Option<String>, UpdateError>(e),
        },
{
    if utf8_to_string(raw).is_none() {
        return Err(UpdateError::Decode);
    }
    match find_crlfcrlf(raw) {
        None => Err(UpdateError::ProtocolViolation),
        Some(i) => {
            let n = raw.len();
            proof {
                assert(crate::framing::is_boundary_at(raw@, i as int));
                assert(i as int + 4 <= n as int);
            }
            let body_slice = vstd::slice::slice_subrange(raw, i + 4, n);
            let body = trim_body(body_slice);
            match parse_manifest_bytes(body.as_slice()) {
                None => Err(UpdateError::Decode),
                Some(m) => {
                    let stripped = strip_version_prefix(m.tag_name.as_str());
                    match parse_version(stripped) {
                        None => Err(UpdateError::Decode),
                        Some(remote) => {
                            if !version_gt(remote, local) {
                                Ok(None)
                            } else {
                                match select_asset(&m, flavor) {
                                    None => Err(UpdateError::ProtocolViolation),
                                    Some(u) => Ok(Some(u)),
                                }
                            }
                        },
                    }
                },
            }
        },
    }
}

} // verus!
