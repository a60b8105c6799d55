//! Signaling: the messages exchanged with the relay, and the client that
//! keeps the connection to it.
use vstd::prelude::*;
use vstd::string::*;
use crate::error::{fails_with, plain, ErrorKind, GhostHandError, Result};
use crate::json::{
    empty_object, json_copy, json_error_text, json_is_null, json_member, json_null, json_object,
    json_parse, json_parsed, json_render, json_rendered, json_text, json_text_of, json_u64, json_u64_of,
    json_view, json_with, member, plain_tree, text_of, u64_of, with_member, JsonTree,
    MAX_JSON_DEPTH,
};
use crate::clock::unix_millis;
use crate::text::{
    concat, hexadecimal, hexadecimal_string, lemma_hexadecimal_digits, lemma_hexadecimal_length,
    sixteen_to, str_equal,
};
use crate::validation::{device_id_problem, is_device_id_char};

pub use crate::peer::WebRTCConnection;
pub use crate::session::SessionManager;

verus! {

/// A signaling message: a type name and, with most types, a payload.
#[derive(Debug)]
pub struct SignalMessage {
    pub msg_type: String,
    pub data: Option<serde_json::Value>,
}

/// What a signaling message holds.
pub struct SignalView {
    pub msg_type: Seq<char>,
    pub data: Option<JsonTree>,
}

impl SignalView {
    /// The text of the payload's member `field`, where the payload is an
    /// object that holds a text under that name.
    pub open spec fn text(self, field: Seq<char>) -> Option<Seq<char>> {
        match self.data {
            Some(tree) => match member(tree, field) {
                Some(found) => text_of(found),
                None => None,
            },
            None => None,
        }
    }

    /// The number of the payload's member `field`, where the payload is an
    /// object that holds a whole number under that name, cut to 16 bits.
    pub open spec fn short(self, field: Seq<char>) -> Option<u16> {
        match self.data {
            Some(tree) => match member(tree, field) {
                Some(found) => match u64_of(found) {
                    Some(number) => Some((number % 0x10000) as u16),
                    None => None,
                },
                None => None,
            },
            None => None,
        }
    }

    /// The payload, where there is one, holds no `Real` number, is not the
    /// null document and does not nest too deep to be written and read back.
    pub open spec fn writable(self) -> bool {
        match self.data {
            Some(tree) => tree != JsonTree::Null && plain_tree(tree, (MAX_JSON_DEPTH - 1) as nat),
            None => true,
        }
    }
}

/// The object with one member.
pub open spec fn object1(k1: Seq<char>, v1: JsonTree) -> JsonTree {
    with_member(empty_object(), k1, v1)
}

/// The object with two members.
pub open spec fn object2(k1: Seq<char>, v1: JsonTree, k2: Seq<char>, v2: JsonTree) -> JsonTree {
    with_member(object1(k1, v1), k2, v2)
}

/// The object with three members.
pub open spec fn object3(
    k1: Seq<char>,
    v1: JsonTree,
    k2: Seq<char>,
    v2: JsonTree,
    k3: Seq<char>,
    v3: JsonTree,
) -> JsonTree {
    with_member(object2(k1, v1, k2, v2), k3, v3)
}

/// A message of type `msg_type` whose payload is `data`.
pub open spec fn signal(msg_type: Seq<char>, data: JsonTree) -> SignalView {
    SignalView { msg_type, data: Some(data) }
}

/// A message of type `msg_type` without payload.
pub open spec fn bare_signal(msg_type: Seq<char>) -> SignalView {
    SignalView { msg_type, data: None }
}

/// `Register`: the local identity announces itself to the relay.
pub open spec fn register_signal(device_id: Seq<char>) -> SignalView {
    signal("Register"@, object1("device_id"@, JsonTree::Text(device_id)))
}

/// `Offer`: a session description proposed by `from` to `to`.
pub open spec fn offer_signal(from: Seq<char>, to: Seq<char>, sdp: Seq<char>) -> SignalView {
    signal(
        "Offer"@,
        object3(
            "from"@,
            JsonTree::Text(from),
            "to"@,
            JsonTree::Text(to),
            "sdp"@,
            JsonTree::Text(sdp),
        ),
    )
}

/// `Answer`: the session description with which `from` answers `to`.
pub open spec fn answer_signal(from: Seq<char>, to: Seq<char>, sdp: Seq<char>) -> SignalView {
    signal(
        "Answer"@,
        object3(
            "from"@,
            JsonTree::Text(from),
            "to"@,
            JsonTree::Text(to),
            "sdp"@,
            JsonTree::Text(sdp),
        ),
    )
}

/// `IceCandidate`: a network path that `from` proposes to `to`.
pub open spec fn ice_candidate_signal(
    from: Seq<char>,
    to: Seq<char>,
    candidate: Seq<char>,
    sdp_mid: Seq<char>,
    sdp_mline_index: u16,
) -> SignalView {
    signal(
        "IceCandidate"@,
        with_member(
            with_member(
                object3(
                    "from"@,
                    JsonTree::Text(from),
                    "to"@,
                    JsonTree::Text(to),
                    "candidate"@,
                    JsonTree::Text(candidate),
                ),
                "sdp_mid"@,
                JsonTree::Text(sdp_mid),
            ),
            "sdp_mline_index"@,
            JsonTree::Int(sdp_mline_index as int),
        ),
    )
}

/// `ConnectRequest`: a request to connect to `target_id`, with a password or
/// the null document in its place.
pub open spec fn connect_request_signal(target_id: Seq<char>, password: Option<Seq<char>>)
    -> SignalView {
    signal(
        "ConnectRequest"@,
        object2(
            "target_id"@,
            JsonTree::Text(target_id),
            "password"@,
            match password {
                Some(text) => JsonTree::Text(text),
                None => JsonTree::Null,
            },
        ),
    )
}

/// `ConnectionAccepted`: the request of `peer_id` is accepted.
pub open spec fn connection_accepted_signal(peer_id: Seq<char>) -> SignalView {
    signal("ConnectionAccepted"@, object1("peer_id"@, JsonTree::Text(peer_id)))
}

/// `ConnectionRejected`: the request of `peer_id` is refused for `reason`.
pub open spec fn connection_rejected_signal(peer_id: Seq<char>, reason: Seq<char>) -> SignalView {
    signal(
        "ConnectionRejected"@,
        object2("peer_id"@, JsonTree::Text(peer_id), "reason"@, JsonTree::Text(reason)),
    )
}

/// The envelope of a message on the wire: an object with the type under
/// `type` and, where there is a payload, the payload under `data`.
pub open spec fn envelope(message: SignalView) -> JsonTree {
    let head = object1("type"@, JsonTree::Text(message.msg_type));
    match message.data {
        Some(tree) => with_member(head, "data"@, tree),
        None => head,
    }
}

/// The message that an envelope holds: its `type` must be a text; a `data`
/// that is absent or the null document is no payload. Other members are
/// passed over. `None` where the tree is no such envelope.
pub open spec fn opened(tree: JsonTree) -> Option<SignalView> {
    match member(tree, "type"@) {
        Some(JsonTree::Text(msg_type)) => Some(
            SignalView {
                msg_type,
                data: match member(tree, "data"@) {
                    Some(JsonTree::Null) => None,
                    other => other,
                },
            },
        ),
        _ => None,
    }
}

/// The text of a message on the wire: what is written for its envelope.
pub open spec fn wire_text(message: SignalView) -> Seq<char> {
    json_rendered(envelope(message))
}

/// `r` is what the writing of `message` comes to: a text, which for a
/// writable message is its text on the wire and reads back as the message.
pub open spec fn written(message: SignalView, r: Result<String>) -> bool {
    r matches Ok(text) && (message.writable() ==> text@ == wire_text(message) && decoded(text@)
        == Some(message))
}

/// The message that the text `text` stands for on the wire; `None` where it
/// is no JSON or no envelope.
pub open spec fn decoded(text: Seq<char>) -> Option<SignalView> {
    match json_parsed(text) {
        Some(tree) => opened(tree),
        None => None,
    }
}

impl View for SignalMessage {
    type V = SignalView;

    open spec fn view(&self) -> SignalView {
        SignalView {
            msg_type: self.msg_type@,
            data: match self.data {
                Some(value) => Some(json_view(value)),
                None => None,
            },
        }
    }
}

impl Clone for SignalMessage {
    fn clone(&self) -> (copy: Self)
        ensures
            copy@ == self@,
    {
        SignalMessage {
            msg_type: self.msg_type.clone(),
            data: match &self.data {
                Some(value) => Some(json_copy(value)),
                None => None,
            },
        }
    }
}

impl SignalMessage {
    /// The message with which `device_id` announces itself to the relay.
    pub fn register(device_id: String) -> (message: Self)
        ensures
            message@ == register_signal(device_id@),
    {
        let data = json_with(json_object(), "device_id", json_text(device_id.as_str()));
        SignalMessage { msg_type: "Register".to_string(), data: Some(data) }
    }

    /// The message that carries the offer `sdp` of `from` to `to`.
    pub fn offer(from: String, to: String, sdp: String) -> (message: Self)
        ensures
            message@ == offer_signal(from@, to@, sdp@),
    {
        let data = json_with(json_object(), "from", json_text(from.as_str()));
        let data = json_with(data, "to", json_text(to.as_str()));
        let data = json_with(data, "sdp", json_text(sdp.as_str()));
        SignalMessage { msg_type: "Offer".to_string(), data: Some(data) }
    }

    /// The message that carries the answer `sdp` of `from` to `to`.
    pub fn answer(from: String, to: String, sdp: String) -> (message: Self)
        ensures
            message@ == answer_signal(from@, to@, sdp@),
    {
        let data = json_with(json_object(), "from", json_text(from.as_str()));
        let data = json_with(data, "to", json_text(to.as_str()));
        let data = json_with(data, "sdp", json_text(sdp.as_str()));
        SignalMessage { msg_type: "Answer".to_string(), data: Some(data) }
    }

    /// The message that carries an ICE candidate of `from` to `to`.
    pub fn ice_candidate(
        from: String,
        to: String,
        candidate: String,
        sdp_mid: String,
        sdp_mline_index: u16,
    ) -> (message: Self)
        ensures
            message@ == ice_candidate_signal(from@, to@, candidate@, sdp_mid@, sdp_mline_index),
    {
        let data = json_with(json_object(), "from", json_text(from.as_str()));
        let data = json_with(data, "to", json_text(to.as_str()));
        let data = json_with(data, "candidate", json_text(candidate.as_str()));
        let data = json_with(data, "sdp_mid", json_text(sdp_mid.as_str()));
        let data = json_with(data, "sdp_mline_index", json_u64(sdp_mline_index as u64));
        SignalMessage { msg_type: "IceCandidate".to_string(), data: Some(data) }
    }

    /// The message that asks for a connection to `target_id`.
    pub fn connect_request(target_id: String, password: Option<String>) -> (message: Self)
        ensures
            message@ == connect_request_signal(
                target_id@,
                match password {
                    Some(text) => Some(text@),
                    None => None,
                },
            ),
    {
        let secret = match &password {
            Some(text) => json_text(text.as_str()),
            None => json_null(),
        };
        let data = json_with(json_object(), "target_id", json_text(target_id.as_str()));
        let data = json_with(data, "password", secret);
        SignalMessage { msg_type: "ConnectRequest".to_string(), data: Some(data) }
    }

    /// The message that asks whether the other side is there.
    pub fn ping() -> (message: Self)
        ensures
            message@ == bare_signal("Ping"@),
    {
        SignalMessage { msg_type: "Ping".to_string(), data: None }
    }

    /// The message that answers a ping.
    pub fn pong() -> (message: Self)
        ensures
            message@ == bare_signal("Pong"@),
    {
        SignalMessage { msg_type: "Pong".to_string(), data: None }
    }

    /// The message that accepts the request of `peer_id`.
    pub fn connection_accepted(peer_id: String) -> (message: Self)
        ensures
            message@ == connection_accepted_signal(peer_id@),
    {
        let data = json_with(json_object(), "peer_id", json_text(peer_id.as_str()));
        SignalMessage { msg_type: "ConnectionAccepted".to_string(), data: Some(data) }
    }

    /// The message that refuses the request of `peer_id` for `reason`.
    pub fn connection_rejected(peer_id: String, reason: String) -> (message: Self)
        ensures
            message@ == connection_rejected_signal(peer_id@, reason@),
    {
        let data = json_with(json_object(), "peer_id", json_text(peer_id.as_str()));
        let data = json_with(data, "reason", json_text(reason.as_str()));
        SignalMessage { msg_type: "ConnectionRejected".to_string(), data: Some(data) }
    }

    /// The text that the payload holds under `field`.
    pub fn get_str(&self, field: &str) -> (r: Option<String>)
        ensures
            match r {
                Some(text) => self@.text(field@) == Some(text@),
                None => self@.text(field@) is None,
            },
    {
        match &self.data {
            Some(value) => match json_member(value, field) {
                Some(found) => json_text_of(&found),
                None => None,
            },
            None => None,
        }
    }

    /// The whole number that the payload holds under `field`, cut to its
    /// lowest 16 bits.
    pub fn get_u16(&self, field: &str) -> (r: Option<u16>)
        ensures
            r == self@.short(field@),
    {
        match &self.data {
            Some(value) => match json_member(value, field) {
                Some(found) => match json_u64_of(&found) {
                    Some(number) => Some((number % 0x10000) as u16),
                    None => None,
                },
                None => None,
            },
            None => None,
        }
    }

    /// Whether the message is of the type `msg_type`.
    pub fn is_type(&self, msg_type: &str) -> (r: bool)
        ensures
            r == (self@.msg_type == msg_type@),
    {
        str_equal(self.msg_type.as_str(), msg_type)
    }

    /// The message on the wire: the JSON text of its envelope, which is
    /// always written. For a writable message that is its wire text, which,
    /// read back with `from_json`, is the same message.
    pub fn to_json(&self) -> (r: Result<String>)
        ensures
            written(self@, r),
    {
        let head = json_with(json_object(), "type", json_text(self.msg_type.as_str()));
        let whole = match &self.data {
            Some(value) => json_with(head, "data", json_copy(value)),
            None => head,
        };
        proof {
            lemma_envelope_round_trip(self@);
        }
        match json_render(&whole) {
            Ok(text) => Ok(text),
            Err(error) => Err(GhostHandError::Serialization(json_error_text(&error))),
        }
    }

    /// The message that a text from the wire stands for. A text that is no
    /// JSON, or whose `type` is missing or no text, is refused.
    pub fn from_json(text: &str) -> (r: Result<Self>)
        ensures
            match decoded(text@) {
                Some(message) => r matches Ok(m) && m@ == message,
                None => r matches Err(e) && e@.kind == ErrorKind::Serialization,
            },
    {
        let tree = match json_parse(text) {
            Ok(value) => value,
            Err(error) => {
                return Err(GhostHandError::Serialization(json_error_text(&error)));
            },
        };
        let msg_type = match json_member(&tree, "type") {
            Some(found) => match json_text_of(&found) {
                Some(name) => name,
                None => {
                    return Err(
                        GhostHandError::Serialization("invalid type: expected a string".to_string()),
                    );
                },
            },
            None => {
                return Err(GhostHandError::Serialization("missing field `type`".to_string()));
            },
        };
        let data = match json_member(&tree, "data") {
            Some(found) => if json_is_null(&found) {
                None
            } else {
                Some(found)
            },
            None => None,
        };
        Ok(SignalMessage { msg_type, data })
    }
}

/// The envelope of a writable message is plain, and opens to the message.
pub proof fn lemma_envelope_round_trip(message: SignalView)
    ensures
        opened(envelope(message)) == Some(
            SignalView {
                msg_type: message.msg_type,
                data: match message.data {
                    Some(JsonTree::Null) => None,
                    other => other,
                },
            },
        ),
        message.writable() ==> plain_tree(envelope(message), MAX_JSON_DEPTH as nat),
        message.writable() ==> opened(envelope(message)) == Some(message),
{
    reveal_strlit("type");
    reveal_strlit("data");
    assert("type"@ != "data"@) by {
        assert("type"@[0] == 't');
        assert("data"@[0] == 'd');
    }
    let head = object1("type"@, JsonTree::Text(message.msg_type));
    assert(member(head, "type"@) == Some(JsonTree::Text(message.msg_type)));
    assert(member(head, "data"@) is None);
    if message.writable() {
        let tree = envelope(message);
        let members = tree->Object_0;
        assert forall|k: Seq<char>| members.contains_key(k) implies plain_tree(
            #[trigger] members[k],
            (MAX_JSON_DEPTH - 1) as nat,
        ) by {
            if k == "type"@ {
            } else {
            }
        }
    }
}


/// How often a failed connection to the relay is tried again.
pub const MAX_RETRY_ATTEMPTS: u32 = 3;

/// Seconds a handshake waits for the message it expects.
pub const CONNECTION_TIMEOUT_SECS: u64 = 30;

/// Where the link to the relay stands.
#[derive(Debug, Clone, Copy, PartialEq, Eq, Structural)]
pub enum LinkState {
    /// Never connected, or given up after the last retry.
    Disconnected,
    /// Connected: messages go out and come in.
    Connected,
    /// Torn down: nothing goes out or comes in any more.
    Closed,
}

/// What came in on the link.
#[derive(Debug)]
pub enum Incoming {
    /// A text frame.
    Text(String),
    /// The frame that closes the connection.
    Close,
    /// A failure of the transport, by its description.
    Error(String),
    /// Any other frame.
    Other,
}

/// What the client does after an attempt to connect.
#[derive(Debug)]
pub enum ConnectStep {
    /// The link stands: this text, the `Register` message of the local
    /// identity, goes out first.
    Connected { register: String },
    /// The attempt failed: wait this many seconds and try again.
    RetryAfter { seconds: u64 },
    /// The attempt failed and no retry is left.
    Failed(GhostHandError),
}

/// The step says that the link stands, and gives the `Register` message of
/// the identity `device_id` to write first.
pub open spec fn registers(step: ConnectStep, device_id: Seq<char>) -> bool {
    step matches ConnectStep::Connected { register } && register@ == wire_text(
        register_signal(device_id),
    ) && decoded(register@) == Some(register_signal(device_id))
}

/// The client of the relay: where the link stands and how many attempts to
/// connect have failed in a row.
pub struct SignalingClient {
    server_url: String,
    device_id: String,
    state: LinkState,
    retry_count: u32,
}

/// Two to the power `exponent`.
pub open spec fn power_of_two(exponent: nat) -> nat
    decreases exponent,
{
    if exponent == 0 {
        1
    } else {
        2 * power_of_two((exponent - 1) as nat)
    }
}

/// Seconds to wait before the retry that follows `failures` failed attempts
/// in a row: one second after the first, twice as long after each further
/// one.
pub open spec fn backoff_seconds(failures: nat) -> nat
    recommends
        failures >= 1,
{
    power_of_two((failures - 1) as nat)
}

/// The message of a connection given up.
pub open spec fn retries_exhausted_message(reason: Seq<char>) -> Seq<char> {
    "Failed to connect to signaling server after 4 retries: "@ + reason
}

impl SignalingClient {
    /// The URL of the relay.
    pub closed spec fn server_url(&self) -> Seq<char> {
        self.server_url@
    }

    /// The local identity.
    pub closed spec fn device_id(&self) -> Seq<char> {
        self.device_id@
    }

    /// Where the link stands.
    pub closed spec fn state(&self) -> LinkState {
        self.state
    }

    /// Attempts to connect that failed in a row.
    pub closed spec fn failures(&self) -> nat {
        self.retry_count as nat
    }

    /// No more failures in a row are counted than retries are allowed.
    pub open spec fn wf(&self) -> bool {
        self.failures() <= MAX_RETRY_ATTEMPTS
    }

    /// A client for the relay at `server_url`, not connected yet.
    pub fn new(server_url: String, device_id: String) -> (client: Self)
        ensures
            client.wf(),
            client.server_url() == server_url@,
            client.device_id() == device_id@,
            client.state() == LinkState::Disconnected,
            client.failures() == 0,
    {
        SignalingClient { server_url, device_id, state: LinkState::Disconnected, retry_count: 0 }
    }

    /// The URL of the relay.
    pub fn url(&self) -> (url: &String)
        ensures
            url@ == self.server_url(),
    {
        &self.server_url
    }

    /// Where the link stands.
    pub fn link_state(&self) -> (state: LinkState)
        ensures
            state == self.state(),
    {
        self.state
    }

    /// Takes in how an attempt to connect ended; `failure` is `None` where
    /// the link stands, else the reason it does not.
    ///
    /// On success the link is connected and the `Register` message of the
    /// local identity goes out. A failure is counted: up to three times in a
    /// row the client waits one, two, then four seconds and tries again; the
    /// fourth failure in a row is final, a network error, and the count
    /// starts over.
    pub fn connect(&mut self, failure: Option<String>) -> (step: ConnectStep)
        requires
            old(self).wf(),
        ensures
            final(self).wf(),
            final(self).server_url() == old(self).server_url(),
            final(self).device_id() == old(self).device_id(),
            match failure {
                None => final(self).failures() == 0 && final(self).state() == LinkState::Connected
                    && registers(step, old(self).device_id()),
                Some(reason) => final(self).state() == LinkState::Disconnected && if old(
                    self,
                ).failures() < MAX_RETRY_ATTEMPTS {
                    final(self).failures() == old(self).failures() + 1 && step
                        == (ConnectStep::RetryAfter {
                        seconds: backoff_seconds(final(self).failures()) as u64,
                    })
                } else {
                    final(self).failures() == 0 && (step matches ConnectStep::Failed(e) && e@
                        == plain(ErrorKind::Network, retries_exhausted_message(reason@)))
                },
            },
    {
        match failure {
            None => {
                self.retry_count = 0;
                let register = SignalMessage::register(self.device_id.clone());
                proof {
                    lemma_constructed_writable();
                }
                match register.to_json() {
                    Ok(text) => {
                        self.state = LinkState::Connected;
                        ConnectStep::Connected { register: text }
                    },
                    Err(error) => {
                        self.state = LinkState::Disconnected;
                        ConnectStep::Failed(error)
                    },
                }
            },
            Some(reason) => {
                self.state = LinkState::Disconnected;
                if self.retry_count >= MAX_RETRY_ATTEMPTS {
                    self.retry_count = 0;
                    ConnectStep::Failed(
                        GhostHandError::Network(
                            concat(
                                "Failed to connect to signaling server after 4 retries: ",
                                reason.as_str(),
                            ),
                        ),
                    )
                } else {
                    let seconds: u64 = if self.retry_count == 0 {
                        1
                    } else if self.retry_count == 1 {
                        2
                    } else {
                        4
                    };
                    self.retry_count = self.retry_count + 1;
                    proof {
                        reveal_with_fuel(power_of_two, 4);
                    }
                    ConnectStep::RetryAfter { seconds }
                }
            },
        }
    }

    /// The text to write on the link for `msg`: on a link that stands, the
    /// text of the message, always. Nothing goes out on a link that never
    /// stood or was torn down: both are network errors.
    pub fn send(&self, msg: &SignalMessage) -> (r: Result<String>)
        ensures
            match self.state() {
                LinkState::Connected => written(msg@, r),
                LinkState::Disconnected => r matches Err(e) && e@ == plain(
                    ErrorKind::Network,
                    "Not connected to signaling server"@,
                ),
                LinkState::Closed => r matches Err(e) && e@ == plain(
                    ErrorKind::Network,
                    "Failed to send message: channel closed"@,
                ),
            },
    {
        match self.state {
            LinkState::Connected => msg.to_json(),
            LinkState::Disconnected => Err(
                GhostHandError::Network("Not connected to signaling server".to_string()),
            ),
            LinkState::Closed => Err(
                GhostHandError::Network("Failed to send message: channel closed".to_string()),
            ),
        }
    }

    /// Takes in what came in on the link. A text that is a message is
    /// delivered; a text that is none is dropped, and so is any other frame.
    /// The closing frame and a failure of the transport tear the link down.
    /// Nothing is delivered on a link that never stood or was torn down.
    pub fn receive(&mut self, frame: Incoming) -> (r: Result<Option<SignalMessage>>)
        ensures
            final(self).server_url() == old(self).server_url(),
            final(self).device_id() == old(self).device_id(),
            final(self).failures() == old(self).failures(),
            match old(self).state() {
                LinkState::Disconnected => final(self).state() == LinkState::Disconnected
                    && fails_with(r, plain(ErrorKind::Network, "Not connected to signaling server"@)),
                LinkState::Closed => final(self).state() == LinkState::Closed && fails_with(
                    r,
                    plain(ErrorKind::Network, "Signaling channel closed"@),
                ),
                LinkState::Connected => match frame {
                    Incoming::Text(text) => final(self).state() == LinkState::Connected
                        && match decoded(text@) {
                        Some(message) => r matches Ok(Some(m)) && m@ == message,
                        None => r matches Ok(None),
                    },
                    Incoming::Other => final(self).state() == LinkState::Connected && (
                    r matches Ok(None)),
                    _ => final(self).state() == LinkState::Closed && fails_with(
                        r,
                        plain(ErrorKind::Network, "Signaling channel closed"@),
                    ),
                },
            },
    {
        match self.state {
            LinkState::Disconnected => Err(
                GhostHandError::Network("Not connected to signaling server".to_string()),
            ),
            LinkState::Closed => Err(
                GhostHandError::Network("Signaling channel closed".to_string()),
            ),
            LinkState::Connected => match frame {
                Incoming::Text(text) => match SignalMessage::from_json(text.as_str()) {
                    Ok(message) => Ok(Some(message)),
                    Err(_) => Ok(None),
                },
                Incoming::Other => Ok(None),
                _ => {
                    self.state = LinkState::Closed;
                    Err(GhostHandError::Network("Signaling channel closed".to_string()))
                },
            },
        }
    }

    /// Tears the link down: from now on nothing goes out or is delivered.
    pub fn close(&mut self)
        ensures
            final(self).state() == LinkState::Closed,
            final(self).server_url() == old(self).server_url(),
            final(self).device_id() == old(self).device_id(),
            final(self).failures() == old(self).failures(),
    {
        self.state = LinkState::Closed;
    }
}

/// Every message that a constructor makes can be written and read back.
pub proof fn lemma_constructed_writable()
    ensures
        forall|id: Seq<char>| #[trigger] register_signal(id).writable(),
        forall|from: Seq<char>, to: Seq<char>, sdp: Seq<char>| #[trigger]
            offer_signal(from, to, sdp).writable(),
        forall|from: Seq<char>, to: Seq<char>, sdp: Seq<char>| #[trigger]
            answer_signal(from, to, sdp).writable(),
        forall|from: Seq<char>, to: Seq<char>, c: Seq<char>, mid: Seq<char>, index: u16| #[trigger]
            ice_candidate_signal(from, to, c, mid, index).writable(),
        forall|target: Seq<char>, password: Option<Seq<char>>| #[trigger]
            connect_request_signal(target, password).writable(),
        forall|peer: Seq<char>| #[trigger] connection_accepted_signal(peer).writable(),
        forall|peer: Seq<char>, reason: Seq<char>| #[trigger]
            connection_rejected_signal(peer, reason).writable(),
        bare_signal("Ping"@).writable(),
        bare_signal("Pong"@).writable(),
{
    reveal_with_fuel(plain_tree, 3);
    assert forall|target: Seq<char>, password: Option<Seq<char>>| #[trigger]
        connect_request_signal(target, password).writable() by {
        let tree = connect_request_signal(target, password).data->Some_0;
        let members = tree->Object_0;
        assert forall|k: Seq<char>| members.contains_key(k) implies plain_tree(
            #[trigger] members[k],
            (MAX_JSON_DEPTH - 2) as nat,
        ) by {
            if k == "password"@ {
            } else {
            }
        }
    }
    assert forall|from: Seq<char>, to: Seq<char>, c: Seq<char>, mid: Seq<char>, index: u16| #[trigger]
        ice_candidate_signal(from, to, c, mid, index).writable() by {
        let tree = ice_candidate_signal(from, to, c, mid, index).data->Some_0;
        let members = tree->Object_0;
        assert forall|k: Seq<char>| members.contains_key(k) implies plain_tree(
            #[trigger] members[k],
            (MAX_JSON_DEPTH - 2) as nat,
        ) by {
            if k == "sdp_mline_index"@ {
            } else if k == "sdp_mid"@ {
            } else if k == "candidate"@ {
            } else if k == "to"@ {
            } else {
            }
        }
    }
}

/// The identifier of a device first started at `millis` milliseconds after
/// the epoch: `GHD-` and the time as a hexadecimal numeral.
pub open spec fn device_id_text(millis: u64) -> Seq<char> {
    "GHD-"@ + hexadecimal(millis as nat)
}

/// A fresh device identifier, made of the time now.
pub fn generate_device_id() -> (id: String)
    ensures
        exists|millis: u64| id@ == device_id_text(millis),
{
    let millis = unix_millis();
    let id = device_id_at(millis);
    assert(id@ == device_id_text(millis));
    id
}

/// The device identifier made of the time `millis`.
pub fn device_id_at(millis: u64) -> (id: String)
    ensures
        id@ == device_id_text(millis),
{
    concat("GHD-", hexadecimal_string(millis).as_str())
}

/// Every generated device identifier is of a valid form: its characters,
/// each one byte long, pass the validation of device identifiers.
pub proof fn lemma_generated_id_valid(millis: u64)
    ensures
        device_id_problem(device_id_text(millis).len(), device_id_text(millis)) is None,
{
    reveal_strlit("GHD-");
    let digits = hexadecimal(millis as nat);
    let id = device_id_text(millis);
    lemma_hexadecimal_digits(millis as nat);
    assert(sixteen_to(16) == 0x1_0000_0000_0000_0000) by {
        reveal_with_fuel(sixteen_to, 17);
    }
    lemma_hexadecimal_length(millis as nat, 16);
    assert(id.len() == 4 + digits.len());
    assert forall|i: int| 0 <= i < id.len() implies is_device_id_char(#[trigger] id[i]) by {
        if i >= 4 {
            assert(id[i] == digits[i - 4]);
        }
    }
    assert(id[0] == 'G');
}

} // verus!
