//! The HTTP signalling service: how two peers exchange SDP to connect, and
//! what a failed request is answered.

use vstd::prelude::*;

use vstd::string::StringExecFns;

use webrtc::peer_connection::sdp::session_description::RTCSessionDescription;

verus! {

/// Asks a peer to connect, as `cid`, to the peer whose service listens at
/// `endpoint`.
pub struct Connect {
    pub cid: String,
    pub endpoint: String,
}

/// One half of the SDP exchange of connection `cid`.
pub struct Handshake {
    pub cid: String,
    pub sdp: String,
}

/// The body of every error response.
pub struct ErrorMessage {
    pub error: String,
}

/// A failed request.  Errors of other crates are held by their message.
pub enum ServiceError {
    /// The transport failed.
    Swarm(String),
    /// The request to the other peer failed.
    PeerRequestError(String),
    /// The other peer answered with an error.
    PeerResponseError(ErrorMessage),
    /// JSON could not be read or written.
    SerdeJson(String),
    /// The connection was not there after it was made.
    ConnectionNotFound { cid: String },
}

/// HTTP status codes of error responses.
pub const STATUS_BAD_REQUEST: u16 = 400;
pub const STATUS_NOT_FOUND: u16 = 404;
pub const STATUS_INTERNAL_SERVER_ERROR: u16 = 500;

/// What a failed request is answered: a status and an `ErrorMessage`.
pub struct ErrorResponse {
    pub status: u16,
    pub body: ErrorMessage,
}

impl ServiceError {
    pub open spec fn status(self) -> u16 {
        match self {
            ServiceError::Swarm(_) => STATUS_INTERNAL_SERVER_ERROR,
            ServiceError::PeerRequestError(_) => STATUS_BAD_REQUEST,
            ServiceError::PeerResponseError(_) => STATUS_BAD_REQUEST,
            ServiceError::SerdeJson(_) => STATUS_BAD_REQUEST,
            ServiceError::ConnectionNotFound { .. } => STATUS_NOT_FOUND,
        }
    }

    pub open spec fn message(self) -> Seq<char> {
        match self {
            ServiceError::Swarm(text) => text@,
            ServiceError::PeerRequestError(text) => text@,
            ServiceError::PeerResponseError(e) => "Peer response error: "@ + e.error@,
            ServiceError::SerdeJson(text) => text@,
            ServiceError::ConnectionNotFound { cid } => "Connection not found: "@ + cid@,
        }
    }

    /// The response to a request that failed with this error.
    pub fn into_response(self) -> (response: ErrorResponse)
        ensures
            response.status == self.status(),
            response.body.error@ == self.message(),
    {
        match self {
            ServiceError::Swarm(text) => ErrorResponse {
                status: STATUS_INTERNAL_SERVER_ERROR,
                body: ErrorMessage { error: text },
            },
            ServiceError::PeerRequestError(text) => ErrorResponse {
                status: STATUS_BAD_REQUEST,
                body: ErrorMessage { error: text },
            },
            ServiceError::PeerResponseError(e) => ErrorResponse {
                status: STATUS_BAD_REQUEST,
                body: ErrorMessage {
                    error: String::from_str("Peer response error: ").concat(e.error.as_str()),
                },
            },
            ServiceError::SerdeJson(text) => ErrorResponse {
                status: STATUS_BAD_REQUEST,
                body: ErrorMessage { error: text },
            },
            ServiceError::ConnectionNotFound { cid } => ErrorResponse {
                status: STATUS_NOT_FOUND,
                body: ErrorMessage {
                    error: String::from_str("Connection not found: ").concat(cid.as_str()),
                },
            },
        }
    }
}

/// The base URL of a service that listens at `address`.
pub open spec fn http_base(address: Seq<char>) -> Seq<char> {
    "http://"@ + address
}

/// The base URL of the service that listens at `address`.
pub fn service_base_url(address: &str) -> (url: String)
    ensures
        url@ == http_base(address@),
{
    String::from_str("http://").concat(address)
}

/// The URL of the `/connect` route of the service that listens at
/// `address`.
pub fn connect_url(address: &str) -> (url: String)
    ensures
        url@ == http_base(address@) + "/connect"@,
{
    service_base_url(address).concat("/connect")
}

/// The request that a client makes of its own service: connect as `cid`
/// to the peer whose service listens at `server_address`.
pub fn client_connect_request(cid: String, server_address: &str) -> (request: Connect)
    ensures
        request.cid == cid,
        request.endpoint@ == http_base(server_address@),
{
    Connect { cid, endpoint: service_base_url(server_address) }
}

/// The path under which a peer's service answers an SDP offer.
pub open spec fn answer_offer_path() -> Seq<char> {
    "/answer_offer"@
}

/// What reading JSON as an SDP description gives: the description, or
/// the text of the error.
pub type DecodedSdp = Result<RTCSessionDescription, Seq<char>>;

/// What `serde_json::from_str` makes of `json` as an `RTCSessionDescription`:
/// the description, or the text (`Display`) of its error.  Parsing depends
/// on the text alone.
pub uninterp spec fn sdp_from_json(json: Seq<char>) -> DecodedSdp;

/// The JSON that `serde_json::to_string` writes for a description.
pub uninterp spec fn sdp_to_json(sdp: RTCSessionDescription) -> Seq<char>;

/// `serde_json::from_str::<RTCSessionDescription>`, the error taken by its
/// text.
#[verifier::external_body]
fn decode_sdp(json: &str) -> (decoded: Result<RTCSessionDescription, String>)
    ensures
        decoded matches Ok(sdp) ==> sdp_from_json(json@) == DecodedSdp::Ok(sdp),
        decoded matches Err(text) ==> sdp_from_json(json@) == DecodedSdp::Err(text@),
{
    serde_json::from_str::<RTCSessionDescription>(json).map_err(|e| e.to_string())
}

/// `serde_json::to_string` of a description.  `RTCSessionDescription`
/// derives `Serialize` over a `String` and an enum of unit variants, which
/// serde_json always writes into its buffer, so the call succeeds.
#[verifier::external_body]
fn encode_sdp(sdp: &RTCSessionDescription) -> (encoded: Result<String, String>)
    ensures
        encoded matches Ok(text),
        encoded matches Ok(text) ==> text@ == sdp_to_json(*sdp),
{
    serde_json::to_string(sdp).map_err(|e| e.to_string())
}

/// Where a `connect` request stands.
pub enum ConnectStage {
    MakingConnection,
    LookingUp,
    CreatingOffer,
    Posting,
    ReadingError,
    ReadingHandshake,
    Accepting,
    Done,
}

/// The step that the runtime performs next for a `connect` request.
pub enum ConnectAction {
    /// Make a new connection under the request's id.
    MakeConnection,
    /// Look up the connection under the request's id.
    LookUpConnection,
    /// Create the SDP offer of the connection.
    CreateOffer,
    /// Post this handshake as JSON to this URL.
    Post { url: String, handshake: Handshake },
    /// Read the peer's error response as an `ErrorMessage`.
    ReadErrorMessage,
    /// Read the peer's response as a `Handshake`.
    ReadHandshake,
    /// Accept this answer of the peer on the connection.
    AcceptAnswer(RTCSessionDescription),
    /// The request is complete, with this result.
    Finish(Result<(), ServiceError>),
}

/// A `connect` request: make a connection, send its offer to the other
/// peer's service, and accept the answer that comes back.
pub struct ConnectTask {
    stage: ConnectStage,
}

impl ConnectTask {
    pub closed spec fn stage(self) -> ConnectStage {
        self.stage
    }

    pub fn new() -> (started: (ConnectTask, ConnectAction))
        ensures
            started.0.stage() == ConnectStage::MakingConnection,
            started.1 == ConnectAction::MakeConnection,
    {
        (ConnectTask { stage: ConnectStage::MakingConnection }, ConnectAction::MakeConnection)
    }

    pub fn on_connection_made(&mut self, made: Result<(), String>) -> (action: ConnectAction)
        requires
            old(self).stage() == ConnectStage::MakingConnection,
        ensures
            match made {
                Ok(()) => final(self).stage() == ConnectStage::LookingUp
                    && action == ConnectAction::LookUpConnection,
                Err(text) => final(self).stage() == ConnectStage::Done
                    && action == ConnectAction::Finish(Err(ServiceError::Swarm(text))),
            },
    {
        match made {
            Ok(()) => {
                self.stage = ConnectStage::LookingUp;
                ConnectAction::LookUpConnection
            },
            Err(text) => {
                self.stage = ConnectStage::Done;
                ConnectAction::Finish(Err(ServiceError::Swarm(text)))
            },
        }
    }

    pub fn on_connection_looked_up(&mut self, request: &Connect, found: bool) -> (action: ConnectAction)
        requires
            old(self).stage() == ConnectStage::LookingUp,
        ensures
            found ==> final(self).stage() == ConnectStage::CreatingOffer
                && action == ConnectAction::CreateOffer,
            !found ==> final(self).stage() == ConnectStage::Done
                && (action matches ConnectAction::Finish(Err(ServiceError::ConnectionNotFound { cid }))
                && cid@ == request.cid@),
    {
        if found {
            self.stage = ConnectStage::CreatingOffer;
            ConnectAction::CreateOffer
        } else {
            self.stage = ConnectStage::Done;
            ConnectAction::Finish(Err(ServiceError::ConnectionNotFound { cid: request.cid.clone() }))
        }
    }

    /// The offer of the connection: its JSON goes to the other peer's
    /// `/answer_offer`, under the id of the request.
    pub fn on_offer_created(&mut self, request: &Connect, created: Result<RTCSessionDescription, String>) -> (action: ConnectAction)
        requires
            old(self).stage() == ConnectStage::CreatingOffer,
        ensures
            match created {
                Ok(offer) => final(self).stage() == ConnectStage::Posting
                    && (action matches ConnectAction::Post { url, handshake }
                    && url@ == request.endpoint@ + answer_offer_path()
                    && handshake.cid@ == request.cid@
                    && handshake.sdp@ == sdp_to_json(offer)),
                Err(text) => final(self).stage() == ConnectStage::Done
                    && action == ConnectAction::Finish(Err(ServiceError::Swarm(text))),
            },
    {
        match created {
            Ok(offer) => match encode_sdp(&offer) {
                Ok(sdp) => {
                    self.stage = ConnectStage::Posting;
                    let url = request.endpoint.clone().concat("/answer_offer");
                    ConnectAction::Post { url, handshake: Handshake { cid: request.cid.clone(), sdp } }
                },
                Err(text) => {
                    self.stage = ConnectStage::Done;
                    ConnectAction::Finish(Err(ServiceError::SerdeJson(text)))
                },
            },
            Err(text) => {
                self.stage = ConnectStage::Done;
                ConnectAction::Finish(Err(ServiceError::Swarm(text)))
            },
        }
    }

    /// The outcome of the post: whether the peer answered with a success
    /// status, or the text of the failed request.
    pub fn on_posted(&mut self, posted: Result<bool, String>) -> (action: ConnectAction)
        requires
            old(self).stage() == ConnectStage::Posting,
        ensures
            match posted {
                Ok(true) => final(self).stage() == ConnectStage::ReadingHandshake
                    && action == ConnectAction::ReadHandshake,
                Ok(false) => final(self).stage() == ConnectStage::ReadingError
                    && action == ConnectAction::ReadErrorMessage,
                Err(text) => final(self).stage() == ConnectStage::Done
                    && action == ConnectAction::Finish(Err(ServiceError::PeerRequestError(text))),
            },
    {
        match posted {
            Ok(true) => {
                self.stage = ConnectStage::ReadingHandshake;
                ConnectAction::ReadHandshake
            },
            Ok(false) => {
                self.stage = ConnectStage::ReadingError;
                ConnectAction::ReadErrorMessage
            },
            Err(text) => {
                self.stage = ConnectStage::Done;
                ConnectAction::Finish(Err(ServiceError::PeerRequestError(text)))
            },
        }
    }

    /// The error that the other peer answered with ends the request.
    pub fn on_error_message_read(&mut self, read: Result<ErrorMessage, String>) -> (action: ConnectAction)
        requires
            old(self).stage() == ConnectStage::ReadingError,
        ensures
            final(self).stage() == ConnectStage::Done,
            match read {
                Ok(message) => action == ConnectAction::Finish(Err(ServiceError::PeerResponseError(message))),
                Err(text) => action == ConnectAction::Finish(Err(ServiceError::PeerRequestError(text))),
            },
    {
        self.stage = ConnectStage::Done;
        match read {
            Ok(message) => ConnectAction::Finish(Err(ServiceError::PeerResponseError(message))),
            Err(text) => ConnectAction::Finish(Err(ServiceError::PeerRequestError(text))),
        }
    }

    /// The peer's handshake: its SDP, read as JSON, is the answer to
    /// accept; SDP that does not read fails the request as a transport
    /// error with the text of the JSON error.
    pub fn on_handshake_read(&mut self, read: Result<Handshake, String>) -> (action: ConnectAction)
        requires
            old(self).stage() == ConnectStage::ReadingHandshake,
        ensures
            match read {
                Ok(handshake) => match sdp_from_json(handshake.sdp@) {
                    Ok(answer) => final(self).stage() == ConnectStage::Accepting
                        && action == ConnectAction::AcceptAnswer(answer),
                    Err(text) => final(self).stage() == ConnectStage::Done
                        && (action matches ConnectAction::Finish(Err(ServiceError::Swarm(t))) && t@ == text),
                },
                Err(text) => final(self).stage() == ConnectStage::Done
                    && action == ConnectAction::Finish(Err(ServiceError::PeerRequestError(text))),
            },
    {
        match read {
            Ok(handshake) => match decode_sdp(handshake.sdp.as_str()) {
                Ok(answer) => {
                    self.stage = ConnectStage::Accepting;
                    ConnectAction::AcceptAnswer(answer)
                },
                Err(text) => {
                    self.stage = ConnectStage::Done;
                    ConnectAction::Finish(Err(ServiceError::Swarm(text)))
                },
            },
            Err(text) => {
                self.stage = ConnectStage::Done;
                ConnectAction::Finish(Err(ServiceError::PeerRequestError(text)))
            },
        }
    }

    pub fn on_answer_accepted(&mut self, accepted: Result<(), String>) -> (action: ConnectAction)
        requires
            old(self).stage() == ConnectStage::Accepting,
        ensures
            final(self).stage() == ConnectStage::Done,
            match accepted {
                Ok(()) => action == ConnectAction::Finish(Ok(())),
                Err(text) => action == ConnectAction::Finish(Err(ServiceError::Swarm(text))),
            },
    {
        self.stage = ConnectStage::Done;
        match accepted {
            Ok(()) => ConnectAction::Finish(Ok(())),
            Err(text) => ConnectAction::Finish(Err(ServiceError::Swarm(text))),
        }
    }
}

/// Where an `answer_offer` request stands; the offer read from the request
/// is kept until it is answered.
pub enum AnswerStage {
    MakingConnection { offer: RTCSessionDescription },
    LookingUp { offer: RTCSessionDescription },
    Answering,
    Done,
}

/// The step that the runtime performs next for an `answer_offer` request.
pub enum AnswerAction {
    /// Make a new connection under the handshake's id.
    MakeConnection,
    /// Look up the connection under the handshake's id.
    LookUpConnection,
    /// Answer this offer on the connection.
    AnswerOffer(RTCSessionDescription),
    /// The request is complete, with this result.
    Finish(Result<Handshake, ServiceError>),
}

/// An `answer_offer` request: read the offer of the other peer, make a
/// connection for it and answer it with this peer's SDP.
pub struct AnswerTask {
    stage: AnswerStage,
}

impl AnswerTask {
    pub closed spec fn stage(self) -> AnswerStage {
        self.stage
    }

    /// Starts answering the handshake: its SDP, read as JSON, is the offer;
    /// SDP that does not read fails the request with the JSON error.
    pub fn new(request: &Handshake) -> (started: (AnswerTask, AnswerAction))
        ensures
            match sdp_from_json(request.sdp@) {
                Ok(offer) => started.0.stage() == (AnswerStage::MakingConnection { offer })
                    && started.1 == AnswerAction::MakeConnection,
                Err(text) => started.0.stage() == AnswerStage::Done
                    && (started.1 matches AnswerAction::Finish(Err(ServiceError::SerdeJson(t))) && t@ == text),
            },
    {
        match decode_sdp(request.sdp.as_str()) {
            Ok(offer) => (AnswerTask { stage: AnswerStage::MakingConnection { offer } }, AnswerAction::MakeConnection),
            Err(text) => (AnswerTask { stage: AnswerStage::Done }, AnswerAction::Finish(Err(ServiceError::SerdeJson(text)))),
        }
    }

    pub fn on_connection_made(&mut self, made: Result<(), String>) -> (action: AnswerAction)
        requires
            old(self).stage() is MakingConnection,
        ensures
            old(self).stage() matches AnswerStage::MakingConnection { offer } && match made {
                Ok(()) => final(self).stage() == (AnswerStage::LookingUp { offer })
                    && action == AnswerAction::LookUpConnection,
                Err(text) => final(self).stage() == AnswerStage::Done
                    && action == AnswerAction::Finish(Err(ServiceError::Swarm(text))),
            },
    {
        let mut stage = AnswerStage::Done;
        std::mem::swap(&mut stage, &mut self.stage);
        match (stage, made) {
            (AnswerStage::MakingConnection { offer }, Ok(())) => {
                self.stage = AnswerStage::LookingUp { offer };
                AnswerAction::LookUpConnection
            },
            (_, Err(text)) => AnswerAction::Finish(Err(ServiceError::Swarm(text))),
            (_, Ok(())) => AnswerAction::LookUpConnection,
        }
    }

    pub fn on_connection_looked_up(&mut self, request: &Handshake, found: bool) -> (action: AnswerAction)
        requires
            old(self).stage() is LookingUp,
        ensures
            old(self).stage() matches AnswerStage::LookingUp { offer } && if found {
                final(self).stage() == AnswerStage::Answering && action == AnswerAction::AnswerOffer(offer)
            } else {
                final(self).stage() == AnswerStage::Done
                    && (action matches AnswerAction::Finish(Err(ServiceError::ConnectionNotFound { cid }))
                    && cid@ == request.cid@)
            },
    {
        let mut stage = AnswerStage::Done;
        std::mem::swap(&mut stage, &mut self.stage);
        match stage {
            AnswerStage::LookingUp { offer } => {
                if found {
                    self.stage = AnswerStage::Answering;
                    AnswerAction::AnswerOffer(offer)
                } else {
                    AnswerAction::Finish(Err(ServiceError::ConnectionNotFound { cid: request.cid.clone() }))
                }
            },
            _ => AnswerAction::LookUpConnection,
        }
    }

    /// This peer's answer: its JSON goes back under the id of the request.
    pub fn on_offer_answered(&mut self, request: &Handshake, answered: Result<RTCSessionDescription, String>) -> (action: AnswerAction)
        requires
            old(self).stage() == AnswerStage::Answering,
        ensures
            final(self).stage() == AnswerStage::Done,
            match answered {
                Ok(answer) => action matches AnswerAction::Finish(Ok(handshake))
                    && handshake.cid@ == request.cid@ && handshake.sdp@ == sdp_to_json(answer),
                Err(text) => action == AnswerAction::Finish(Err(ServiceError::Swarm(text))),
            },
    {
        self.stage = AnswerStage::Done;
        match answered {
            Ok(answer) => match encode_sdp(&answer) {
                Ok(sdp) => AnswerAction::Finish(Ok(Handshake { cid: request.cid.clone(), sdp })),
                Err(text) => AnswerAction::Finish(Err(ServiceError::SerdeJson(text))),
            },
            Err(text) => AnswerAction::Finish(Err(ServiceError::Swarm(text))),
        }
    }
}

} // verus!
