//! The peer channel as the session sees it: what was negotiated so far,
//! whether the data channel is there, and what each step of the outside
//! peer-connection library comes to.
//!
//! The calls into that library are made elsewhere; each function here takes
//! in how such a call ended and decides what follows from it.
use vstd::prelude::*;
use vstd::string::*;
use crate::config::Config;
use crate::error::{fails_with, plain, ErrorKind, GhostHandError, Result};
use crate::text::concat;

verus! {

/// The label of the data channel that the offering side opens.
pub const CONTROL_CHANNEL_LABEL: &'static str = "control";

/// The states that a peer connection goes through.
#[derive(Debug, Clone, Copy, PartialEq, Eq, Structural)]
pub enum PeerConnectionState {
    New,
    Connecting,
    Connected,
    Disconnected,
    Failed,
    Closed,
}

/// The kinds of session description.
#[derive(Debug, Clone, Copy, PartialEq, Eq, Structural)]
pub enum SdpType {
    Unspecified,
    Offer,
    Pranswer,
    Answer,
    Rollback,
}

/// How the making of an offer ended.
#[derive(Debug)]
pub enum OfferOutcome {
    /// The data channel could not be opened.
    DataChannelFailed(String),
    /// The channel is open, but no offer could be made.
    OfferFailed(String),
    /// The offer was made, but could not be set as the local description.
    LocalDescriptionFailed(String),
    /// The offer, set as the local description.
    Created(String),
}

/// How the answering of an offer ended.
#[derive(Debug)]
pub enum AnswerOutcome {
    /// The offer is no session description.
    OfferRejected(String),
    /// The offer could not be set as the remote description.
    RemoteDescriptionFailed(String),
    /// The offer is set, but no answer could be made.
    AnswerFailed(String),
    /// The answer was made, but could not be set as the local description.
    LocalDescriptionFailed(String),
    /// The answer, set as the local description.
    Created(String),
}

/// How the setting of a remote description ended.
#[derive(Debug)]
pub enum DescriptionOutcome {
    /// The text is no session description.
    Rejected(String),
    /// The description could not be set.
    Failed(String),
    /// The description is set.
    Applied,
}

/// The peer channel of one connection.
#[derive(Debug)]
pub struct WebRTCConnection {
    ice_servers: Vec<String>,
    state: PeerConnectionState,
    data_channel: bool,
    local_description: Option<SdpType>,
    remote_description: Option<SdpType>,
}

/// What a peer channel holds.
pub struct PeerView {
    pub ice_servers: Seq<Seq<char>>,
    pub state: PeerConnectionState,
    pub data_channel: bool,
    pub local_description: Option<SdpType>,
    pub remote_description: Option<SdpType>,
}

/// The texts of a list of strings.
pub open spec fn texts(strings: Seq<String>) -> Seq<Seq<char>> {
    Seq::new(strings.len(), |i: int| strings[i]@)
}

/// A peer channel as it is made: new, without data channel or descriptions.
pub open spec fn fresh_peer(ice_servers: Seq<Seq<char>>) -> PeerView {
    PeerView {
        ice_servers,
        state: PeerConnectionState::New,
        data_channel: false,
        local_description: None,
        remote_description: None,
    }
}

/// A WebRTC error whose message is `prefix` followed by `reason`.
pub open spec fn webrtc_error(prefix: Seq<char>, reason: Seq<char>) -> crate::error::ErrorView {
    plain(ErrorKind::WebRTC, prefix + reason)
}

/// The error that reports a data channel that is not ready.
pub open spec fn channel_unavailable() -> crate::error::ErrorView {
    plain(ErrorKind::ChannelUnavailable, "Data channel non disponible"@)
}

/// Data can be sent over the peer channel: its data channel is there and the
/// peer connection has reported that it is connected.
pub open spec fn ready_to_send(peer: PeerView) -> bool {
    peer.data_channel && peer.state == PeerConnectionState::Connected
}

/// The peer channel after the making of an offer ended with `outcome`: the
/// data channel is there as soon as it could be opened, the local
/// description is an offer once all went well.
pub open spec fn after_offer(peer: PeerView, outcome: OfferOutcome) -> PeerView {
    match outcome {
        OfferOutcome::DataChannelFailed(_) => peer,
        OfferOutcome::OfferFailed(_) => PeerView { data_channel: true, ..peer },
        OfferOutcome::LocalDescriptionFailed(_) => PeerView { data_channel: true, ..peer },
        OfferOutcome::Created(_) => PeerView {
            data_channel: true,
            local_description: Some(SdpType::Offer),
            ..peer
        },
    }
}

/// The error of an offer that could not be made; `None` where it was made.
pub open spec fn offer_error(outcome: OfferOutcome) -> Option<crate::error::ErrorView> {
    match outcome {
        OfferOutcome::DataChannelFailed(reason) => Some(
            webrtc_error("Erreur de création du data channel: "@, reason@),
        ),
        OfferOutcome::OfferFailed(reason) => Some(
            webrtc_error("Erreur de création de l'offre: "@, reason@),
        ),
        OfferOutcome::LocalDescriptionFailed(reason) => Some(
            webrtc_error("Erreur de définition de la description locale: "@, reason@),
        ),
        OfferOutcome::Created(_) => None,
    }
}

/// The peer channel after the answering of an offer ended with `outcome`:
/// the remote description is the offer as soon as it could be set, the local
/// description is an answer once all went well.
pub open spec fn after_answer(peer: PeerView, outcome: AnswerOutcome) -> PeerView {
    match outcome {
        AnswerOutcome::OfferRejected(_) => peer,
        AnswerOutcome::RemoteDescriptionFailed(_) => peer,
        AnswerOutcome::AnswerFailed(_) => PeerView {
            remote_description: Some(SdpType::Offer),
            ..peer
        },
        AnswerOutcome::LocalDescriptionFailed(_) => PeerView {
            remote_description: Some(SdpType::Offer),
            ..peer
        },
        AnswerOutcome::Created(_) => PeerView {
            remote_description: Some(SdpType::Offer),
            local_description: Some(SdpType::Answer),
            ..peer
        },
    }
}

/// The error of an answer that could not be made; `None` where it was made.
pub open spec fn answer_error(outcome: AnswerOutcome) -> Option<crate::error::ErrorView> {
    match outcome {
        AnswerOutcome::OfferRejected(reason) => Some(
            webrtc_error("Erreur de parsing de l'offre: "@, reason@),
        ),
        AnswerOutcome::RemoteDescriptionFailed(reason) => Some(
            webrtc_error("Erreur de définition de la description distante: "@, reason@),
        ),
        AnswerOutcome::AnswerFailed(reason) => Some(
            webrtc_error("Erreur de création de la réponse: "@, reason@),
        ),
        AnswerOutcome::LocalDescriptionFailed(reason) => Some(
            webrtc_error("Erreur de définition de la description locale: "@, reason@),
        ),
        AnswerOutcome::Created(_) => None,
    }
}

/// Only an offer or an answer can be a remote description.
pub open spec fn remote_kind_accepted(sdp_type: SdpType) -> bool {
    sdp_type == SdpType::Offer || sdp_type == SdpType::Answer
}

/// The error of a remote description that could not be set; `None` where it
/// was set. A description of a kind that is not accepted is an error
/// whatever the outcome.
pub open spec fn remote_description_error(sdp_type: SdpType, outcome: DescriptionOutcome)
    -> Option<crate::error::ErrorView> {
    if !remote_kind_accepted(sdp_type) {
        Some(plain(ErrorKind::WebRTC, "Type SDP invalide (doit être Offer ou Answer)"@))
    } else {
        match outcome {
            DescriptionOutcome::Rejected(reason) => Some(
                webrtc_error("Erreur de parsing de la description: "@, reason@),
            ),
            DescriptionOutcome::Failed(reason) => Some(
                webrtc_error("Erreur de définition de la description distante: "@, reason@),
            ),
            DescriptionOutcome::Applied => None,
        }
    }
}

fn webrtc_failure(prefix: &str, reason: &String) -> (e: GhostHandError)
    ensures
        e@ == webrtc_error(prefix@, reason@),
{
    GhostHandError::WebRTC(concat(prefix, reason.as_str()))
}

/// A copy of a list of strings.
pub fn copy_strings(strings: &Vec<String>) -> (copy: Vec<String>)
    ensures
        texts(copy@) == texts(strings@),
{
    let mut copy: Vec<String> = Vec::new();
    let mut i: usize = 0;
    while i < strings.len()
        invariant
            i <= strings.len(),
            copy@.len() == i,
            forall|k: int| 0 <= k < i ==> copy@[k]@ == strings@[k]@,
        decreases strings.len() - i,
    {
        copy.push(strings[i].clone());
        i += 1;
    }
    assert(texts(copy@) =~= texts(strings@));
    copy
}

impl View for WebRTCConnection {
    type V = PeerView;

    closed spec fn view(&self) -> PeerView {
        PeerView {
            ice_servers: texts(self.ice_servers@),
            state: self.state,
            data_channel: self.data_channel,
            local_description: self.local_description,
            remote_description: self.remote_description,
        }
    }
}

impl Clone for WebRTCConnection {
    fn clone(&self) -> (copy: Self)
        ensures
            copy@ == self@,
    {
        WebRTCConnection {
            ice_servers: copy_strings(&self.ice_servers),
            state: self.state,
            data_channel: self.data_channel,
            local_description: self.local_description,
            remote_description: self.remote_description,
        }
    }
}

impl WebRTCConnection {
    /// Takes in how the making of the peer connection ended; `failure` is
    /// `None` where it was made. The connection is to use the STUN servers
    /// of the configuration.
    pub fn new(config: &Config, failure: Option<String>) -> (r: Result<Self>)
        ensures
            match failure {
                None => r matches Ok(peer) && peer@ == fresh_peer(texts(config.stun_servers@)),
                Some(reason) => fails_with(
                    r,
                    webrtc_error("Erreur de création de peer connection: "@, reason@),
                ),
            },
    {
        match failure {
            Some(reason) => Err(
                webrtc_failure("Erreur de création de peer connection: ", &reason),
            ),
            None => Ok(
                WebRTCConnection {
                    ice_servers: copy_strings(&config.stun_servers),
                    state: PeerConnectionState::New,
                    data_channel: false,
                    local_description: None,
                    remote_description: None,
                },
            ),
        }
    }

    /// The servers that help gather ICE candidates.
    pub fn ice_servers(&self) -> (servers: &Vec<String>)
        ensures
            texts(servers@) == self@.ice_servers,
    {
        &self.ice_servers
    }

    /// Takes in how the making of an offer ended: the offer, or the error
    /// of the step that failed.
    pub fn create_offer(&mut self, outcome: OfferOutcome) -> (r: Result<String>)
        ensures
            final(self)@ == after_offer(old(self)@, outcome),
            match offer_error(outcome) {
                Some(error) => fails_with(r, error),
                None => r matches Ok(sdp) && outcome matches OfferOutcome::Created(made) && sdp
                    == made,
            },
    {
        match outcome {
            OfferOutcome::DataChannelFailed(reason) => Err(
                webrtc_failure("Erreur de création du data channel: ", &reason),
            ),
            OfferOutcome::OfferFailed(reason) => {
                self.data_channel = true;
                Err(webrtc_failure("Erreur de création de l'offre: ", &reason))
            },
            OfferOutcome::LocalDescriptionFailed(reason) => {
                self.data_channel = true;
                Err(webrtc_failure("Erreur de définition de la description locale: ", &reason))
            },
            OfferOutcome::Created(sdp) => {
                self.data_channel = true;
                self.local_description = Some(SdpType::Offer);
                Ok(sdp)
            },
        }
    }

    /// Takes in how the answering of an offer ended: the answer, or the
    /// error of the step that failed.
    pub fn create_answer(&mut self, outcome: AnswerOutcome) -> (r: Result<String>)
        ensures
            final(self)@ == after_answer(old(self)@, outcome),
            match answer_error(outcome) {
                Some(error) => fails_with(r, error),
                None => r matches Ok(sdp) && outcome matches AnswerOutcome::Created(made) && sdp
                    == made,
            },
    {
        match outcome {
            AnswerOutcome::OfferRejected(reason) => Err(
                webrtc_failure("Erreur de parsing de l'offre: ", &reason),
            ),
            AnswerOutcome::RemoteDescriptionFailed(reason) => Err(
                webrtc_failure("Erreur de définition de la description distante: ", &reason),
            ),
            AnswerOutcome::AnswerFailed(reason) => {
                self.remote_description = Some(SdpType::Offer);
                Err(webrtc_failure("Erreur de création de la réponse: ", &reason))
            },
            AnswerOutcome::LocalDescriptionFailed(reason) => {
                self.remote_description = Some(SdpType::Offer);
                Err(webrtc_failure("Erreur de définition de la description locale: ", &reason))
            },
            AnswerOutcome::Created(sdp) => {
                self.remote_description = Some(SdpType::Offer);
                self.local_description = Some(SdpType::Answer);
                Ok(sdp)
            },
        }
    }

    /// Whether a description of the kind `sdp_type` can be a remote
    /// description: to be asked before the description is handed on.
    pub fn accepts_remote(sdp_type: SdpType) -> (r: bool)
        ensures
            r == remote_kind_accepted(sdp_type),
    {
        match sdp_type {
            SdpType::Offer => true,
            SdpType::Answer => true,
            _ => false,
        }
    }

    /// Takes in how the setting of a remote description of the kind
    /// `sdp_type` ended. Only an offer or an answer is accepted.
    pub fn set_remote_description(&mut self, sdp_type: SdpType, outcome: DescriptionOutcome) -> (r:
        Result<()>)
        ensures
            match remote_description_error(sdp_type, outcome) {
                Some(error) => fails_with(r, error) && final(self)@ == old(self)@,
                None => r is Ok && final(self)@ == (PeerView {
                    remote_description: Some(sdp_type),
                    ..old(self)@
                }),
            },
    {
        if !Self::accepts_remote(sdp_type) {
            return Err(
                GhostHandError::WebRTC("Type SDP invalide (doit être Offer ou Answer)".to_string()),
            );
        }
        match outcome {
            DescriptionOutcome::Rejected(reason) => Err(
                webrtc_failure("Erreur de parsing de la description: ", &reason),
            ),
            DescriptionOutcome::Failed(reason) => Err(
                webrtc_failure("Erreur de définition de la description distante: ", &reason),
            ),
            DescriptionOutcome::Applied => {
                self.remote_description = Some(sdp_type);
                Ok(())
            },
        }
    }

    /// Takes in how the adding of a remote ICE candidate ended; `failure` is
    /// `None` where it was added.
    pub fn add_ice_candidate(&self, failure: Option<String>) -> (r: Result<()>)
        ensures
            match failure {
                None => r is Ok,
                Some(reason) => fails_with(
                    r,
                    webrtc_error("Erreur d'ajout du candidat ICE: "@, reason@),
                ),
            },
    {
        match failure {
            None => Ok(()),
            Some(reason) => Err(webrtc_failure("Erreur d'ajout du candidat ICE: ", &reason)),
        }
    }

    /// Whether the data channel is there.
    pub fn has_data_channel(&self) -> (r: bool)
        ensures
            r == self@.data_channel,
    {
        self.data_channel
    }

    /// Whether data can be sent: the data channel is there and the peer
    /// connection has reported that it is connected. To be asked before
    /// anything is sent.
    pub fn can_send(&self) -> (r: bool)
        ensures
            r == ready_to_send(self@),
    {
        self.data_channel && self.is_connected()
    }

    /// Takes in how the sending of data ended; `failure` is `None` where it
    /// was sent. On a channel that is not there, or not connected yet,
    /// nothing can be sent, whatever the outcome: the channel is
    /// unavailable.
    pub fn send_data(&self, failure: Option<String>) -> (r: Result<()>)
        ensures
            if !ready_to_send(self@) {
                fails_with(r, channel_unavailable())
            } else {
                match failure {
                    None => r is Ok,
                    Some(reason) => fails_with(
                        r,
                        webrtc_error("Erreur d'envoi de données: "@, reason@),
                    ),
                }
            },
    {
        if !self.can_send() {
            return Err(GhostHandError::ChannelUnavailable("Data channel non disponible".to_string()));
        }
        match failure {
            None => Ok(()),
            Some(reason) => Err(webrtc_failure("Erreur d'envoi de données: ", &reason)),
        }
    }

    /// Whether a listener for incoming data can be set: only where the data
    /// channel is there.
    pub fn on_data_channel_message(&self) -> (r: Result<()>)
        ensures
            if self@.data_channel {
                r is Ok
            } else {
                fails_with(r, channel_unavailable())
            },
    {
        if self.data_channel {
            Ok(())
        } else {
            Err(GhostHandError::ChannelUnavailable("Data channel non disponible".to_string()))
        }
    }

    /// Takes in that the peer opened a data channel towards this side.
    pub fn data_channel_received(&mut self)
        ensures
            final(self)@ == (PeerView { data_channel: true, ..old(self)@ }),
    {
        self.data_channel = true;
    }

    /// Takes in the state that the peer connection reports.
    pub fn set_connection_state(&mut self, state: PeerConnectionState)
        ensures
            final(self)@ == (PeerView { state, ..old(self)@ }),
    {
        self.state = state;
    }

    /// The state that the peer connection reported last.
    pub fn connection_state(&self) -> (state: PeerConnectionState)
        ensures
            state == self@.state,
    {
        self.state
    }

    /// Whether the peer connection reported that it is connected.
    pub fn is_connected(&self) -> (r: bool)
        ensures
            r == (self@.state == PeerConnectionState::Connected),
    {
        match self.state {
            PeerConnectionState::Connected => true,
            _ => false,
        }
    }
}

} // verus!
