//! The client-level and top-level error layers.

use vstd::prelude::*;
use crate::io::IoError;

verus! {

#[verifier::external_type_specification]
#[verifier::external_body]
pub struct ExStatus(tonic::Status);

#[verifier::external_type_specification]
#[verifier::external_body]
pub struct ExUuidError(uuid::Error);

#[verifier::external_type_specification]
#[verifier::external_body]
pub struct ExUrlParseError(url::ParseError);

#[verifier::external_type_specification]
#[verifier::external_body]
pub struct ExInvalidUri(http::uri::InvalidUri);

#[verifier::external_type_specification]
#[verifier::external_body]
pub struct ExTransportError(tonic::transport::Error);

/// Relies on the `Display` impl of `tonic::Status`, which renders its code and
/// message.
#[verifier::external_body]
fn status_text(status: &tonic::Status) -> (r: String) {
    status.to_string()
}

/// What went wrong in the client. Each remote call that fails carries the
/// transport status and the rendered form of the request that was sent.
pub enum ClientErrorKind {
    AnalyzeRequest { status: tonic::Status, request: String },
    AnalyzeResponseNotFound(String),
    ExecutePlanRequest { status: tonic::Status, request: String },
    InterruptRequest { status: tonic::Status, request: String },
    InvalidSessionID { source: uuid::Error, session_id: String },
    InvalidConnectionString { source: Option<url::ParseError>, conn_string: String, msg: String },
    Io(IoError),
    ReattachExecuteRequest { status: tonic::Status, request: String },
    ReleaseExecuteRequest { status: tonic::Status, request: String },
    SessionIDMismatch { client_session_id: String, request_session_id: String },
    Stream(tonic::Status),
    Unimplemented(String),
    UnspecifiedInterruptRequest,
}

/// Text of a failed remote call: `<call> failed with status '<status>': <request>`.
pub open spec fn request_message(call: Seq<char>, status: Seq<char>, request: Seq<char>) -> Seq<char> {
    call + " failed with status '"@ + status + "': "@ + request
}

/// Text of a rejected connection string.
pub open spec fn connection_message(conn_string: Seq<char>, msg: Seq<char>) -> Seq<char> {
    "Failed to parse the connection URL '"@ + conn_string + "': "@ + msg
        + ". Please update the URL to follow the correct format, e.g., 'sc://hostname:port'."@
}

/// Text of a session ID that does not parse.
pub open spec fn session_id_message(session_id: Seq<char>) -> Seq<char> {
    "Failed to parse session ID: '"@ + session_id + "'"@
}

/// Text of a session ID that differs from the client's own.
pub open spec fn mismatch_message(client: Seq<char>, request: Seq<char>) -> Seq<char> {
    "Request session ID does not match the client: "@ + client + " != "@ + request
}

impl ClientErrorKind {
    /// The one-line description of this error, where `status` is the rendered
    /// transport status of the variants that carry one.
    pub open spec fn message_spec(&self, status: Seq<char>) -> Seq<char> {
        match self {
            ClientErrorKind::AnalyzeRequest { request, .. } => request_message("AnalyzeRequest"@, status, request@),
            ClientErrorKind::AnalyzeResponseNotFound(msg) => "No analyze response found: "@ + msg@ + "."@,
            ClientErrorKind::ExecutePlanRequest { request, .. } => request_message("ExecutePlanRequest"@, status, request@),
            ClientErrorKind::InterruptRequest { request, .. } => request_message("InterruptRequest"@, status, request@),
            ClientErrorKind::InvalidSessionID { session_id, .. } => session_id_message(session_id@),
            ClientErrorKind::InvalidConnectionString { conn_string, msg, .. } => connection_message(conn_string@, msg@),
            ClientErrorKind::Io(_) => "Failed to deserialize Arrow RecordBatch."@,
            ClientErrorKind::ReattachExecuteRequest { request, .. } => request_message("ReattachExecuteRequest"@, status, request@),
            ClientErrorKind::ReleaseExecuteRequest { request, .. } => request_message("ReleaseExecuteRequest"@, status, request@),
            ClientErrorKind::SessionIDMismatch { client_session_id, request_session_id } => mismatch_message(
                client_session_id@,
                request_session_id@,
            ),
            ClientErrorKind::Stream(_) => "Failed to process stream: status "@ + status,
            ClientErrorKind::Unimplemented(msg) => msg@,
            ClientErrorKind::UnspecifiedInterruptRequest => "Interrupt Type was not specified."@,
        }
    }

    /// Whether this error carries a transport status.
    pub open spec fn has_status(&self) -> bool {
        ||| self is AnalyzeRequest
        ||| self is ExecutePlanRequest
        ||| self is InterruptRequest
        ||| self is ReattachExecuteRequest
        ||| self is ReleaseExecuteRequest
        ||| self is Stream
    }

    /// Renders the one-line description of this error. The text of a transport
    /// status is the one tonic renders; the rest is fixed by the variant.
    pub fn message(&self) -> (r: String)
        ensures
            exists|status: Seq<char>| r@ == self.message_spec(status),
            !self.has_status() ==> r@ == self.message_spec(Seq::empty()),
    {
        match self {
            ClientErrorKind::AnalyzeRequest { status, request } => {
                let t = status_text(status);
                let r = render_request("AnalyzeRequest", t.as_str(), request.as_str());
                assert(r@ == self.message_spec(t@));
                r
            },
            ClientErrorKind::AnalyzeResponseNotFound(msg) => {
                let mut s = String::from_str("No analyze response found: ");
                s.append(msg.as_str());
                s.append(".");
                assert(s@ == self.message_spec(Seq::empty()));
                s
            },
            ClientErrorKind::ExecutePlanRequest { status, request } => {
                let t = status_text(status);
                let r = render_request("ExecutePlanRequest", t.as_str(), request.as_str());
                assert(r@ == self.message_spec(t@));
                r
            },
            ClientErrorKind::InterruptRequest { status, request } => {
                let t = status_text(status);
                let r = render_request("InterruptRequest", t.as_str(), request.as_str());
                assert(r@ == self.message_spec(t@));
                r
            },
            ClientErrorKind::InvalidSessionID { session_id, .. } => {
                let mut s = String::from_str("Failed to parse session ID: '");
                s.append(session_id.as_str());
                s.append("'");
                assert(s@ == self.message_spec(Seq::empty()));
                s
            },
            ClientErrorKind::InvalidConnectionString { conn_string, msg, .. } => {
                let mut s = String::from_str("Failed to parse the connection URL '");
                s.append(conn_string.as_str());
                s.append("': ");
                s.append(msg.as_str());
                s.append(
                    ". Please update the URL to follow the correct format, e.g., 'sc://hostname:port'.",
                );
                assert(s@ == self.message_spec(Seq::empty()));
                s
            },
            ClientErrorKind::Io(_) => {
                let s = String::from_str("Failed to deserialize Arrow RecordBatch.");
                assert(s@ == self.message_spec(Seq::empty()));
                s
            },
            ClientErrorKind::ReattachExecuteRequest { status, request } => {
                let t = status_text(status);
                let r = render_request("ReattachExecuteRequest", t.as_str(), request.as_str());
                assert(r@ == self.message_spec(t@));
                r
            },
            ClientErrorKind::ReleaseExecuteRequest { status, request } => {
                let t = status_text(status);
                let r = render_request("ReleaseExecuteRequest", t.as_str(), request.as_str());
                assert(r@ == self.message_spec(t@));
                r
            },
            ClientErrorKind::SessionIDMismatch { client_session_id, request_session_id } => {
                let mut s = String::from_str("Request session ID does not match the client: ");
                s.append(client_session_id.as_str());
                s.append(" != ");
                s.append(request_session_id.as_str());
                assert(s@ == self.message_spec(Seq::empty()));
                s
            },
            ClientErrorKind::Stream(status) => {
                let t = status_text(status);
                let mut s = String::from_str("Failed to process stream: status ");
                s.append(t.as_str());
                assert(s@ == self.message_spec(t@));
                s
            },
            ClientErrorKind::Unimplemented(msg) => {
                let s = msg.clone();
                assert(s@ == self.message_spec(Seq::empty()));
                s
            },
            ClientErrorKind::UnspecifiedInterruptRequest => {
                let s = String::from_str("Interrupt Type was not specified.");
                assert(s@ == self.message_spec(Seq::empty()));
                s
            },
        }
    }

    /// Whether this error wraps an underlying cause: a session ID parse error, a
    /// URL parse error when there was one, or a stream decoding error.
    pub fn has_source(&self) -> (r: bool)
        ensures
            r == match self {
                ClientErrorKind::InvalidSessionID { .. } => true,
                ClientErrorKind::InvalidConnectionString { source, .. } => source is Some,
                ClientErrorKind::Io(_) => true,
                _ => false,
            },
    {
        match self {
            ClientErrorKind::InvalidSessionID { .. } => true,
            ClientErrorKind::InvalidConnectionString { source, .. } => source.is_some(),
            ClientErrorKind::Io(_) => true,
            _ => false,
        }
    }
}

fn render_request(call: &str, status: &str, request: &str) -> (r: String)
    ensures
        r@ == request_message(call@, status@, request@),
{
    let mut s = String::from_str(call);
    s.append(" failed with status '");
    s.append(status);
    s.append("': ");
    s.append(request);
    s
}

/// An error of the client layer.
pub struct ClientError {
    pub kind: ClientErrorKind,
}

impl ClientError {
    pub fn new(kind: ClientErrorKind) -> (r: ClientError)
        ensures
            r.kind == kind,
    {
        ClientError { kind }
    }

    /// Renders `ClientError: ` followed by the description of its kind.
    pub fn message(&self) -> (r: String)
        ensures
            exists|status: Seq<char>| r@ == "ClientError: "@ + self.kind.message_spec(status),
            !self.kind.has_status() ==> r@ == "ClientError: "@ + self.kind.message_spec(
                Seq::empty(),
            ),
    {
        let k = self.kind.message();
        let ghost st = choose|status: Seq<char>| k@ == self.kind.message_spec(status);
        let mut s = String::from_str("ClientError: ");
        s.append(k.as_str());
        assert(s@ == "ClientError: "@ + self.kind.message_spec(st));
        s
    }
}

impl From<IoError> for ClientError {
    fn from(error: IoError) -> (r: ClientError) {
        ClientError::new(ClientErrorKind::Io(error))
    }
}

impl vstd::std_specs::convert::FromSpecImpl<IoError> for ClientError {
    open spec fn obeys_from_spec() -> bool {
        true
    }

    open spec fn from_spec(error: IoError) -> ClientError {
        ClientError { kind: ClientErrorKind::Io(error) }
    }
}

/// What went wrong at the top level.
pub enum SparkErrorKind {
    Client(ClientError),
    InvalidConnectionUri { source: http::uri::InvalidUri, uri: String },
    Transport(tonic::transport::Error),
}

impl SparkErrorKind {
    /// The one-line description of this error.
    pub open spec fn message_spec(&self) -> Seq<char> {
        match self {
            SparkErrorKind::Client(_) => "Client error"@,
            SparkErrorKind::InvalidConnectionUri { uri, .. } => "Connection URI is invalid: '"@ + uri@ + "'"@,
            SparkErrorKind::Transport(_) => "Tonic transport error"@,
        }
    }

    /// Whether this error wraps an underlying cause: every kind does.
    pub fn has_source(&self) -> (r: bool)
        ensures
            r,
    {
        match self {
            SparkErrorKind::Client(_) => true,
            SparkErrorKind::InvalidConnectionUri { .. } => true,
            SparkErrorKind::Transport(_) => true,
        }
    }

    /// Renders the one-line description of this error.
    pub fn message(&self) -> (r: String)
        ensures
            r@ == self.message_spec(),
    {
        match self {
            SparkErrorKind::Client(_) => String::from_str("Client error"),
            SparkErrorKind::InvalidConnectionUri { uri, .. } => {
                let mut s = String::from_str("Connection URI is invalid: '");
                s.append(uri.as_str());
                s.append("'");
                s
            },
            SparkErrorKind::Transport(_) => String::from_str("Tonic transport error"),
        }
    }
}

/// The error that the library reports to its users.
pub struct SparkError {
    pub kind: SparkErrorKind,
}

impl SparkError {
    pub fn new(kind: SparkErrorKind) -> (r: SparkError)
        ensures
            r.kind == kind,
    {
        SparkError { kind }
    }

    /// Renders `SparkError: ` followed by the description of its kind.
    pub fn message(&self) -> (r: String)
        ensures
            r@ == "SparkError: "@ + self.kind.message_spec(),
    {
        let k = self.kind.message();
        let mut s = String::from_str("SparkError: ");
        s.append(k.as_str());
        s
    }
}

impl From<ClientError> for SparkError {
    fn from(error: ClientError) -> (r: SparkError) {
        SparkError::new(SparkErrorKind::Client(error))
    }
}

impl vstd::std_specs::convert::FromSpecImpl<ClientError> for SparkError {
    open spec fn obeys_from_spec() -> bool {
        true
    }

    open spec fn from_spec(error: ClientError) -> SparkError {
        SparkError { kind: SparkErrorKind::Client(error) }
    }
}

} // verus!
