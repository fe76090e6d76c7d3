//! The self-update pipeline's decisions: the requests it sends, the write
//! session against the inactive boot partition, and the stage machine that
//! an I/O runner drives through manifest fetch, redirect, header
//! consumption, body streaming and activation.
use vstd::prelude::*;

verus! {

use crate::UpdateError;
use crate::framing::Request;
use crate::framing::ScanState;
use crate::framing::spec_advance;
use crate::framing::advance;
use crate::framing::spec_header_views;
use crate::manifest::BuildFlavor;
use crate::manifest::Version;
use crate::manifest::spec_resolve;
use crate::manifest::resolve_update;
use crate::net::spec_redirect_target;
use crate::net::redirect_target;
use crate::net::url_host;
use crate::net::connect_target;
use vstd::string::*;

/// The release-listing endpoint asked for the latest release.
pub open spec fn spec_release_url() -> Seq<char> {
    "https://api.github.com/repos/purduehackers/sign-firmware/releases/latest"@
}

/// The release-listing endpoint asked for the latest release.
pub fn release_url() -> (r: &'static str)
    ensures
        r@ == spec_release_url(),
{
    "https://api.github.com/repos/purduehackers/sign-firmware/releases/latest"
}

/// `req` is a GET for `uri` carrying exactly the pipeline's user agent and
/// the given Host header, with no body.
pub open spec fn spec_get_request(req: Request, uri: Seq<char>, host: Seq<char>) -> bool {
    &&& req.method@ == "GET"@
    &&& req.uri@ == uri
    &&& spec_header_views(req.headers@) == seq![
        ("User-Agent"@, "PHSign/1.0.0"@),
        ("Host"@, host),
    ]
    &&& req.body@ == Seq::<char>::empty()
}

/// A GET request with the pipeline's fixed user agent and the given Host
/// header.
pub fn get_request(uri: &str, host: &str) -> (r: Request)
    ensures
        spec_get_request(r, uri@, host@),
{
    let mut headers: Vec<(String, String)> = Vec::new();
    headers.push((String::from_str("User-Agent"), String::from_str("PHSign/1.0.0")));
    headers.push((String::from_str("Host"), String::from_str(host)));
    let r = Request {
        method: String::from_str("GET"),
        uri: String::from_str(uri),
        headers,
        body: String::new(),
    };
    proof {
        assert(spec_header_views(r.headers@) =~= seq![
            ("User-Agent"@, "PHSign/1.0.0"@),
            ("Host"@, host@),
        ]);
    }
    r
}

/// One outcome of a bounded read from the asset stream: some bytes (zero
/// meaning end of stream), an expired read deadline with no data, or a
/// stream error.
#[derive(Debug, Clone, Copy, PartialEq, Eq, Structural)]
pub enum StreamEvent {
    Data(usize),
    TimedOut,
    Failed,
}

/// What the writer owes after a read outcome.
#[derive(Debug, Clone, Copy, PartialEq, Eq, Structural)]
pub enum OtaAction {
    Append,
    Finalize,
    Fail,
}

/// The action owed for each read outcome: append the data read; finalize
/// on end of stream, whether a zero-length read or an expired deadline —
/// the deadline is benign stream end here, not an error; fail only on a
/// stream error.
pub open spec fn spec_ota_action(e: StreamEvent) -> OtaAction {
    match e {
        StreamEvent::Data(n) => if n == 0 {
            OtaAction::Finalize
        } else {
            OtaAction::Append
        },
        StreamEvent::TimedOut => OtaAction::Finalize,
        StreamEvent::Failed => OtaAction::Fail,
    }
}

/// The streaming loop ends, without error, on a zero-length read and on an
/// elapsed read deadline: both outcomes demand finalization, never another
/// read.
pub proof fn lemma_stream_end_finalizes(e: StreamEvent)
    requires
        e == StreamEvent::Data(0usize) || e is TimedOut,
    ensures
        spec_ota_action(e) is Finalize,
{
}

/// The chunk counter after one more appended chunk.
pub open spec fn spec_saturating_inc(c: u64) -> u64 {
    if c < u64::MAX {
        (c + 1) as u64
    } else {
        u64::MAX
    }
}

/// One write session against the inactive boot partition: it counts the
/// chunks appended so far. The session is owned for the duration of one
/// update and destroyed on finalize or abandoned on fatal error.
#[derive(Debug, Clone, Copy, PartialEq, Eq, Structural)]
pub struct OtaSession {
    pub chunks: u64,
}

impl OtaSession {
    /// A fresh session with nothing appended.
    pub fn begin() -> (r: OtaSession)
        ensures
            r.chunks == 0,
    {
        OtaSession { chunks: 0 }
    }

    /// Decides what the writer does with one read outcome.
    pub fn on_read(&mut self, e: StreamEvent) -> (r: OtaAction)
        ensures
            r == spec_ota_action(e),
            final(self).chunks == (if (e matches StreamEvent::Data(n) && n > 0) {
                spec_saturating_inc(old(self).chunks)
            } else {
                old(self).chunks
            }),
    {
        match e {
            StreamEvent::Data(n) => {
                if n == 0 {
                    OtaAction::Finalize
                } else {
                    if self.chunks < u64::MAX {
                        self.chunks = self.chunks + 1;
                    }
                    OtaAction::Append
                }
            },
            StreamEvent::TimedOut => OtaAction::Finalize,
            StreamEvent::Failed => OtaAction::Fail,
        }
    }
}

/// Where the update pipeline stands, named for the event it awaits.
#[derive(Debug, Clone, Copy, PartialEq, Eq, Structural)]
pub enum UpdateStage {
    CheckingRelease,
    AwaitingRedirect,
    ConsumingHeaders,
    Streaming,
    Activating,
    Restarting,
    UpToDate,
    Failed,
}

/// What the I/O runner reports back to the pipeline.
#[derive(Debug, Clone, PartialEq, Eq)]
pub enum UpdateEvent {
    /// The buffered response from the release endpoint.
    ManifestResponse(Vec<u8>),
    /// The buffered response to the asset request (a redirect).
    RedirectHeaders(Vec<u8>),
    /// One byte read from the content stream while consuming headers.
    HeaderByte(u8),
    /// The content stream ended before the header boundary.
    HeaderEof,
    /// The outcome of one bounded body read.
    Stream(StreamEvent),
    /// Finalize and activate completed.
    Activated,
    /// A connect, send or handshake failed.
    NetFailed,
}

/// What the pipeline asks of the I/O runner next.
#[derive(Debug, Clone, PartialEq, Eq)]
pub enum UpdateAction {
    /// Open a secure connection to host:port, send the request, buffer the
    /// response, and report it as a manifest response.
    FetchManifest { request: Request, host: String, port: u16 },
    /// As above, but report the buffer as redirect headers.
    FetchAssetHead { request: Request, host: String, port: u16 },
    /// Open a secure connection to host:port, send the request, then feed
    /// the response back one header byte at a time.
    OpenContentStream { request: Request, host: String, port: u16 },
    /// Read one more header byte.
    ReadHeaderByte,
    /// Open the OTA write session, then do the first bounded body read.
    BeginUpdate,
    /// Append the bytes just read, then do the next bounded body read.
    AppendChunk,
    /// Finalize the session and mark the partition bootable.
    FinalizeAndActivate,
    /// The update is applied; restart the device unconditionally.
    Restart,
    /// The device already runs the latest release; nothing to do.
    AlreadyCurrent,
    /// The update attempt is over; surface this error.
    Abort(UpdateError),
}

/// The whole update pipeline as one machine: which stage it is in, the
/// build flavor and running version it was started with, the header
/// boundary cursor, and the write session.
#[derive(Debug, Clone, Copy, PartialEq, Eq, Structural)]
pub struct UpdateFlow {
    pub stage: UpdateStage,
    pub flavor: BuildFlavor,
    pub local: Version,
    pub scan: ScanState,
    pub session: OtaSession,
}

/// The machine after `e` arrives in state `f`. A failed connect or send is
/// fatal in every stage, as is an event out of protocol order.
pub open spec fn spec_flow_step(f: UpdateFlow, e: UpdateEvent) -> UpdateFlow {
    match (f.stage, e) {
        (_, UpdateEvent::NetFailed) => UpdateFlow { stage: UpdateStage::Failed, ..f },
        (UpdateStage::CheckingRelease, UpdateEvent::ManifestResponse(raw)) => match spec_resolve(
            raw@,
            f.flavor,
            f.local,
        ) {
            Err(_) => UpdateFlow { stage: UpdateStage::Failed, ..f },
            Ok(Option::None) => UpdateFlow { stage: UpdateStage::UpToDate, ..f },
            Ok(Option::Some(u)) => match url_host(u) {
                Option::None => UpdateFlow { stage: UpdateStage::Failed, ..f },
                Option::Some(_) => UpdateFlow { stage: UpdateStage::AwaitingRedirect, ..f },
            },
        },
        (UpdateStage::AwaitingRedirect, UpdateEvent::RedirectHeaders(raw)) => match
            spec_redirect_target(raw@) {
            Err(_) => UpdateFlow { stage: UpdateStage::Failed, ..f },
            Ok(loc) => match url_host(loc) {
                Option::None => UpdateFlow { stage: UpdateStage::Failed, ..f },
                Option::Some(_) => UpdateFlow {
                    stage: UpdateStage::ConsumingHeaders,
                    scan: ScanState::Idle,
                    ..f
                },
            },
        },
        (UpdateStage::ConsumingHeaders, UpdateEvent::HeaderByte(b)) => {
            let s2 = spec_advance(f.scan, b);
            if s2 is Found {
                UpdateFlow {
                    stage: UpdateStage::Streaming,
                    scan: s2,
                    session: OtaSession { chunks: 0 },
                    ..f
                }
            } else {
                UpdateFlow { scan: s2, ..f }
            }
        },
        (UpdateStage::ConsumingHeaders, UpdateEvent::HeaderEof) => UpdateFlow {
            stage: UpdateStage::Failed,
            ..f
        },
        (UpdateStage::Streaming, UpdateEvent::Stream(se)) => match spec_ota_action(se) {
            OtaAction::Append => UpdateFlow {
                session: OtaSession { chunks: spec_saturating_inc(f.session.chunks) },
                ..f
            },
            OtaAction::Finalize => UpdateFlow { stage: UpdateStage::Activating, ..f },
            OtaAction::Fail => UpdateFlow { stage: UpdateStage::Failed, ..f },
        },
        (UpdateStage::Activating, UpdateEvent::Activated) => UpdateFlow {
            stage: UpdateStage::Restarting,
            ..f
        },
        (_, _) => UpdateFlow { stage: UpdateStage::Failed, ..f },
    }
}

/// The exact action owed for `e` arriving in state `f`.
pub open spec fn spec_flow_action_ok(f: UpdateFlow, e: UpdateEvent, r: UpdateAction) -> bool {
    match (f.stage, e) {
        (_, UpdateEvent::NetFailed) => r == UpdateAction::Abort(UpdateError::Network),
        (UpdateStage::CheckingRelease, UpdateEvent::ManifestResponse(raw)) => match spec_resolve(
            raw@,
            f.flavor,
            f.local,
        ) {
            Err(err) => r == UpdateAction::Abort(err),
            Ok(Option::None) => r == UpdateAction::AlreadyCurrent,
            Ok(Option::Some(u)) => match url_host(u) {
                Option::None => r == UpdateAction::Abort(UpdateError::Decode),
                Option::Some(h) => (r matches UpdateAction::FetchAssetHead { request, host, port }
                    && spec_get_request(request, u, "github.com"@) && host@ == h && port == 443u16),
            },
        },
        (UpdateStage::AwaitingRedirect, UpdateEvent::RedirectHeaders(raw)) => match
            spec_redirect_target(raw@) {
            Err(err) => r == UpdateAction::Abort(err),
            Ok(loc) => match url_host(loc) {
                Option::None => r == UpdateAction::Abort(UpdateError::Decode),
                Option::Some(h) => (r matches UpdateAction::OpenContentStream {
                    request,
                    host,
                    port,
                } && spec_get_request(request, loc, "githubusercontent.com"@) && host@ == h && port
                    == 443u16),
            },
        },
        (UpdateStage::ConsumingHeaders, UpdateEvent::HeaderByte(b)) => if spec_advance(
            f.scan,
            b,
        ) is Found {
            r == UpdateAction::BeginUpdate
        } else {
            r == UpdateAction::ReadHeaderByte
        },
        (UpdateStage::ConsumingHeaders, UpdateEvent::HeaderEof) => r == UpdateAction::Abort(
            UpdateError::ProtocolViolation,
        ),
        (UpdateStage::Streaming, UpdateEvent::Stream(se)) => match spec_ota_action(se) {
            OtaAction::Append => r == UpdateAction::AppendChunk,
            OtaAction::Finalize => r == UpdateAction::FinalizeAndActivate,
            OtaAction::Fail => r == UpdateAction::Abort(UpdateError::Network),
        },
        (UpdateStage::Activating, UpdateEvent::Activated) => r == UpdateAction::Restart,
        (_, _) => r == UpdateAction::Abort(UpdateError::ProtocolViolation),
    }
}

impl UpdateFlow {
    /// A flow at the start of an update check, with the manifest request to
    /// send to the release host.
    pub fn start(flavor: BuildFlavor, local: Version) -> (r: (UpdateFlow, UpdateAction))
        ensures
            r.0.stage is CheckingRelease,
            r.0.flavor == flavor,
            r.0.local == local,
            r.0.scan is Idle,
            r.0.session.chunks == 0,
            (r.1 matches UpdateAction::FetchManifest { request, host, port } && spec_get_request(
                request,
                spec_release_url(),
                "api.github.com"@,
            ) && host@ == "api.github.com"@ && port == 443u16),
    {
        let request = get_request(release_url(), "api.github.com");
        let host = String::from_str("api.github.com");
        let flow = UpdateFlow {
            stage: UpdateStage::CheckingRelease,
            flavor,
            local,
            scan: ScanState::Idle,
            session: OtaSession { chunks: 0 },
        };
        (flow, UpdateAction::FetchManifest { request, host, port: 443 })
    }

    /// Feeds the runner's report for the last action to the machine and
    /// returns what to do next.
    pub fn step(&mut self, event: UpdateEvent) -> (r: UpdateAction)
        ensures
            *final(self) == spec_flow_step(*old(self), event),
            spec_flow_action_ok(*old(self), event, r),
    {
        match (self.stage, event) {
            (_, UpdateEvent::NetFailed) => {
                self.stage = UpdateStage::Failed;
                UpdateAction::Abort(UpdateError::Network)
            },
            (UpdateStage::CheckingRelease, UpdateEvent::ManifestResponse(raw)) => {
                match resolve_update(raw.as_slice(), self.flavor, self.local) {
                    Err(e) => {
                        self.stage = UpdateStage::Failed;
                        UpdateAction::Abort(e)
                    },
                    Ok(None) => {
                        self.stage = UpdateStage::UpToDate;
                        UpdateAction::AlreadyCurrent
                    },
                    Ok(Some(u)) => match connect_target(u.as_str()) {
                        None => {
                            self.stage = UpdateStage::Failed;
                            UpdateAction::Abort(UpdateError::Decode)
                        },
                        Some((host, port)) => {
                            self.stage = UpdateStage::AwaitingRedirect;
                            let request = get_request(u.as_str(), "github.com");
                            UpdateAction::FetchAssetHead { request, host, port }
                        },
                    },
                }
            },
            (UpdateStage::AwaitingRedirect, UpdateEvent::RedirectHeaders(raw)) => {
                match redirect_target(raw.as_slice()) {
                    Err(e) => {
                        self.stage = UpdateStage::Failed;
                        UpdateAction::Abort(e)
                    },
                    Ok(loc) => match connect_target(loc.as_str()) {
                        None => {
                            self.stage = UpdateStage::Failed;
                            UpdateAction::Abort(UpdateError::Decode)
                        },
                        Some((host, port)) => {
                            self.stage = UpdateStage::ConsumingHeaders;
                            self.scan = ScanState::Idle;
                            let request = get_request(loc.as_str(), "githubusercontent.com");
                            UpdateAction::OpenContentStream { request, host, port }
                        },
                    },
                }
            },
            (UpdateStage::ConsumingHeaders, UpdateEvent::HeaderByte(b)) => {
                self.scan = advance(self.scan, b);
                if matches!(self.scan, ScanState::Found) {
                    self.stage = UpdateStage::Streaming;
                    self.session = OtaSession::begin();
                    UpdateAction::BeginUpdate
                } else {
                    UpdateAction::ReadHeaderByte
                }
            },
            (UpdateStage::ConsumingHeaders, UpdateEvent::HeaderEof) => {
                self.stage = UpdateStage::Failed;
                UpdateAction::Abort(UpdateError::ProtocolViolation)
            },
            (UpdateStage::Streaming, UpdateEvent::Stream(se)) => {
                match self.session.on_read(se) {
                    OtaAction::Append => UpdateAction::AppendChunk,
                    OtaAction::Finalize => {
                        self.stage = UpdateStage::Activating;
                        UpdateAction::FinalizeAndActivate
                    },
                    OtaAction::Fail => {
                        self.stage = UpdateStage::Failed;
                        UpdateAction::Abort(UpdateError::Network)
                    },
                }
            },
            (UpdateStage::Activating, UpdateEvent::Activated) => {
                self.stage = UpdateStage::Restarting;
                UpdateAction::Restart
            },
            (_, _) => {
                self.stage = UpdateStage::Failed;
                UpdateAction::Abort(UpdateError::ProtocolViolation)
            },
        }
    }
}

} // verus!
