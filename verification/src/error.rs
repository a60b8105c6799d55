//! The error type shared by every component.
use vstd::prelude::*;
use vstd::string::*;
use crate::text::concat;
pub use crate::error_codes;

verus! {

/// What kind of failure an error reports.
#[derive(Clone, Copy, Debug, PartialEq, Eq, Structural)]
pub enum ErrorKind {
    ScreenCapture,
    VideoEncoding,
    Network,
    WebRTC,
    InputControl,
    Crypto,
    Config,
    Validation,
    RateLimit,
    Internal,
    Io,
    Serialization,
    /// A bounded wait ran out before what was awaited came.
    Timeout,
    /// The peer refused.
    Rejected,
    /// Data was to be sent before the data channel of the peer was ready.
    ChannelUnavailable,
    Unknown,
}

/// The mathematical content of an error: its kind, its diagnostic code where
/// it carries one, and its message.
pub struct ErrorView {
    pub kind: ErrorKind,
    pub code: Option<Seq<char>>,
    pub message: Seq<char>,
}

/// What can go wrong: a kind of failure and a message, some with a
/// diagnostic code.
#[derive(Debug)]
pub enum GhostHandError {
    ScreenCapture(String),
    VideoEncoding(String),
    Network(String),
    WebRTC(String),
    InputControl(String),
    Crypto(String),
    Config(String),
    Validation(String),
    RateLimit(String),
    Internal(String),
    ScreenCaptureWithCode { code: String, message: String },
    VideoEncodingWithCode { code: String, message: String },
    NetworkWithCode { code: String, message: String },
    WebRTCWithCode { code: String, message: String },
    InputControlWithCode { code: String, message: String },
    CryptoWithCode { code: String, message: String },
    ConfigWithCode { code: String, message: String },
    /// An input/output failure, by its description.
    Io(String),
    /// A failure to encode or decode structured data, by its description.
    Serialization(String),
    /// A bounded wait ran out; the message says what was awaited.
    Timeout(String),
    /// The peer refused; the message is its reason.
    Rejected(String),
    /// Data was to be sent before the data channel of the peer was ready.
    ChannelUnavailable(String),
    Unknown(String),
}

pub type Result<T> = std::result::Result<T, GhostHandError>;

impl View for GhostHandError {
    type V = ErrorView;

    open spec fn view(&self) -> ErrorView {
        match self {
            GhostHandError::ScreenCapture(m) => plain(ErrorKind::ScreenCapture, m@),
            GhostHandError::VideoEncoding(m) => plain(ErrorKind::VideoEncoding, m@),
            GhostHandError::Network(m) => plain(ErrorKind::Network, m@),
            GhostHandError::WebRTC(m) => plain(ErrorKind::WebRTC, m@),
            GhostHandError::InputControl(m) => plain(ErrorKind::InputControl, m@),
            GhostHandError::Crypto(m) => plain(ErrorKind::Crypto, m@),
            GhostHandError::Config(m) => plain(ErrorKind::Config, m@),
            GhostHandError::Validation(m) => plain(ErrorKind::Validation, m@),
            GhostHandError::RateLimit(m) => plain(ErrorKind::RateLimit, m@),
            GhostHandError::Internal(m) => plain(ErrorKind::Internal, m@),
            GhostHandError::ScreenCaptureWithCode { code, message } => coded(
                ErrorKind::ScreenCapture,
                code@,
                message@,
            ),
            GhostHandError::VideoEncodingWithCode { code, message } => coded(
                ErrorKind::VideoEncoding,
                code@,
                message@,
            ),
            GhostHandError::NetworkWithCode { code, message } => coded(
                ErrorKind::Network,
                code@,
                message@,
            ),
            GhostHandError::WebRTCWithCode { code, message } => coded(
                ErrorKind::WebRTC,
                code@,
                message@,
            ),
            GhostHandError::InputControlWithCode { code, message } => coded(
                ErrorKind::InputControl,
                code@,
                message@,
            ),
            GhostHandError::CryptoWithCode { code, message } => coded(
                ErrorKind::Crypto,
                code@,
                message@,
            ),
            GhostHandError::ConfigWithCode { code, message } => coded(
                ErrorKind::Config,
                code@,
                message@,
            ),
            GhostHandError::Io(m) => plain(ErrorKind::Io, m@),
            GhostHandError::Serialization(m) => plain(ErrorKind::Serialization, m@),
            GhostHandError::Timeout(m) => plain(ErrorKind::Timeout, m@),
            GhostHandError::Rejected(m) => plain(ErrorKind::Rejected, m@),
            GhostHandError::ChannelUnavailable(m) => plain(ErrorKind::ChannelUnavailable, m@),
            GhostHandError::Unknown(m) => plain(ErrorKind::Unknown, m@),
        }
    }
}

/// An error of kind `kind` without a code.
pub open spec fn plain(kind: ErrorKind, message: Seq<char>) -> ErrorView {
    ErrorView { kind, code: None, message }
}

/// An error of kind `kind` carrying the diagnostic code `code`.
pub open spec fn coded(kind: ErrorKind, code: Seq<char>, message: Seq<char>) -> ErrorView {
    ErrorView { kind, code: Some(code), message }
}

/// The words that introduce an uncoded error of each kind.
pub open spec fn plain_prefix(kind: ErrorKind) -> Seq<char> {
    match kind {
        ErrorKind::ScreenCapture => "Erreur de capture d'écran: "@,
        ErrorKind::VideoEncoding => "Erreur d'encodage vidéo: "@,
        ErrorKind::Network => "Erreur réseau: "@,
        ErrorKind::WebRTC => "Erreur WebRTC: "@,
        ErrorKind::InputControl => "Erreur de contrôle d'input: "@,
        ErrorKind::Crypto => "Erreur cryptographique: "@,
        ErrorKind::Config => "Erreur de configuration: "@,
        ErrorKind::Validation => "Erreur de validation: "@,
        ErrorKind::RateLimit => "Rate limit atteint: "@,
        ErrorKind::Internal => "Erreur interne: "@,
        ErrorKind::Io => "Erreur IO: "@,
        ErrorKind::Serialization => "Erreur de sérialisation: "@,
        ErrorKind::Timeout => "Délai dépassé: "@,
        ErrorKind::Rejected => "Connexion rejetée: "@,
        ErrorKind::ChannelUnavailable => "Canal indisponible: "@,
        ErrorKind::Unknown => "Erreur inconnue: "@,
    }
}

/// The words that follow the code of a coded error of each kind.
pub open spec fn coded_label(kind: ErrorKind) -> Seq<char> {
    match kind {
        ErrorKind::ScreenCapture => "] Capture d'écran: "@,
        ErrorKind::VideoEncoding => "] Encodage vidéo: "@,
        ErrorKind::Network => "] Réseau: "@,
        ErrorKind::WebRTC => "] WebRTC: "@,
        ErrorKind::InputControl => "] Contrôle d'input: "@,
        ErrorKind::Crypto => "] Cryptographie: "@,
        _ => "] Configuration: "@,
    }
}

/// The human-readable description of an error.
pub open spec fn description(e: ErrorView) -> Seq<char> {
    match e.code {
        None => plain_prefix(e.kind) + e.message,
        Some(code) => "["@ + code + coded_label(e.kind) + e.message,
    }
}

fn describe_coded(label: &str, code: &String, message: &String) -> (s: String)
    ensures
        s@ == "["@ + code@ + label@ + message@,
{
    let mut s = String::from_str("[");
    s.append(code.as_str());
    s.append(label);
    s.append(message.as_str());
    s
}

impl GhostHandError {
    /// A network error with the diagnostic code `code`.
    pub fn network_with_code(code: &str, message: String) -> (e: Self)
        ensures
            e@ == coded(ErrorKind::Network, code@, message@),
    {
        GhostHandError::NetworkWithCode { code: String::from_str(code), message }
    }

    /// A WebRTC error with the diagnostic code `code`.
    pub fn webrtc_with_code(code: &str, message: String) -> (e: Self)
        ensures
            e@ == coded(ErrorKind::WebRTC, code@, message@),
    {
        GhostHandError::WebRTCWithCode { code: String::from_str(code), message }
    }

    /// A screen capture error with the diagnostic code `code`.
    pub fn screen_capture_with_code(code: &str, message: String) -> (e: Self)
        ensures
            e@ == coded(ErrorKind::ScreenCapture, code@, message@),
    {
        GhostHandError::ScreenCaptureWithCode { code: String::from_str(code), message }
    }

    /// A video encoding error with the diagnostic code `code`.
    pub fn video_encoding_with_code(code: &str, message: String) -> (e: Self)
        ensures
            e@ == coded(ErrorKind::VideoEncoding, code@, message@),
    {
        GhostHandError::VideoEncodingWithCode { code: String::from_str(code), message }
    }

    /// An input control error with the diagnostic code `code`.
    pub fn input_control_with_code(code: &str, message: String) -> (e: Self)
        ensures
            e@ == coded(ErrorKind::InputControl, code@, message@),
    {
        GhostHandError::InputControlWithCode { code: String::from_str(code), message }
    }

    /// A cryptographic error with the diagnostic code `code`.
    pub fn crypto_with_code(code: &str, message: String) -> (e: Self)
        ensures
            e@ == coded(ErrorKind::Crypto, code@, message@),
    {
        GhostHandError::CryptoWithCode { code: String::from_str(code), message }
    }

    /// A configuration error with the diagnostic code `code`.
    pub fn config_with_code(code: &str, message: String) -> (e: Self)
        ensures
            e@ == coded(ErrorKind::Config, code@, message@),
    {
        GhostHandError::ConfigWithCode { code: String::from_str(code), message }
    }

    /// The kind of failure this error reports.
    pub fn kind(&self) -> (k: ErrorKind)
        ensures
            k == self@.kind,
    {
        match self {
            GhostHandError::ScreenCapture(_) => ErrorKind::ScreenCapture,
            GhostHandError::VideoEncoding(_) => ErrorKind::VideoEncoding,
            GhostHandError::Network(_) => ErrorKind::Network,
            GhostHandError::WebRTC(_) => ErrorKind::WebRTC,
            GhostHandError::InputControl(_) => ErrorKind::InputControl,
            GhostHandError::Crypto(_) => ErrorKind::Crypto,
            GhostHandError::Config(_) => ErrorKind::Config,
            GhostHandError::Validation(_) => ErrorKind::Validation,
            GhostHandError::RateLimit(_) => ErrorKind::RateLimit,
            GhostHandError::Internal(_) => ErrorKind::Internal,
            GhostHandError::ScreenCaptureWithCode { .. } => ErrorKind::ScreenCapture,
            GhostHandError::VideoEncodingWithCode { .. } => ErrorKind::VideoEncoding,
            GhostHandError::NetworkWithCode { .. } => ErrorKind::Network,
            GhostHandError::WebRTCWithCode { .. } => ErrorKind::WebRTC,
            GhostHandError::InputControlWithCode { .. } => ErrorKind::InputControl,
            GhostHandError::CryptoWithCode { .. } => ErrorKind::Crypto,
            GhostHandError::ConfigWithCode { .. } => ErrorKind::Config,
            GhostHandError::Io(_) => ErrorKind::Io,
            GhostHandError::Serialization(_) => ErrorKind::Serialization,
            GhostHandError::Timeout(_) => ErrorKind::Timeout,
            GhostHandError::Rejected(_) => ErrorKind::Rejected,
            GhostHandError::ChannelUnavailable(_) => ErrorKind::ChannelUnavailable,
            GhostHandError::Unknown(_) => ErrorKind::Unknown,
        }
    }

    /// The human-readable description: the words for the kind, then the
    /// message; a coded error puts its code in square brackets first.
    pub fn describe(&self) -> (s: String)
        ensures
            s@ == description(self@),
    {
        match self {
            GhostHandError::ScreenCapture(m) => concat("Erreur de capture d'écran: ", m.as_str()),
            GhostHandError::VideoEncoding(m) => concat("Erreur d'encodage vidéo: ", m.as_str()),
            GhostHandError::Network(m) => concat("Erreur réseau: ", m.as_str()),
            GhostHandError::WebRTC(m) => concat("Erreur WebRTC: ", m.as_str()),
            GhostHandError::InputControl(m) => concat("Erreur de contrôle d'input: ", m.as_str()),
            GhostHandError::Crypto(m) => concat("Erreur cryptographique: ", m.as_str()),
            GhostHandError::Config(m) => concat("Erreur de configuration: ", m.as_str()),
            GhostHandError::Validation(m) => concat("Erreur de validation: ", m.as_str()),
            GhostHandError::RateLimit(m) => concat("Rate limit atteint: ", m.as_str()),
            GhostHandError::Internal(m) => concat("Erreur interne: ", m.as_str()),
            GhostHandError::ScreenCaptureWithCode { code, message } => describe_coded(
                "] Capture d'écran: ",
                code,
                message,
            ),
            GhostHandError::VideoEncodingWithCode { code, message } => describe_coded(
                "] Encodage vidéo: ",
                code,
                message,
            ),
            GhostHandError::NetworkWithCode { code, message } => describe_coded(
                "] Réseau: ",
                code,
                message,
            ),
            GhostHandError::WebRTCWithCode { code, message } => describe_coded(
                "] WebRTC: ",
                code,
                message,
            ),
            GhostHandError::InputControlWithCode { code, message } => describe_coded(
                "] Contrôle d'input: ",
                code,
                message,
            ),
            GhostHandError::CryptoWithCode { code, message } => describe_coded(
                "] Cryptographie: ",
                code,
                message,
            ),
            GhostHandError::ConfigWithCode { code, message } => describe_coded(
                "] Configuration: ",
                code,
                message,
            ),
            GhostHandError::Io(m) => concat("Erreur IO: ", m.as_str()),
            GhostHandError::Serialization(m) => concat("Erreur de sérialisation: ", m.as_str()),
            GhostHandError::Timeout(m) => concat("Délai dépassé: ", m.as_str()),
            GhostHandError::Rejected(m) => concat("Connexion rejetée: ", m.as_str()),
            GhostHandError::ChannelUnavailable(m) => concat("Canal indisponible: ", m.as_str()),
            GhostHandError::Unknown(m) => concat("Erreur inconnue: ", m.as_str()),
        }
    }
}


/// The result is the error `error`.
pub open spec fn fails_with<T>(r: Result<T>, error: ErrorView) -> bool {
    r matches Err(e) && e@ == error
}

/// The result is an error of the kind `kind`.
pub open spec fn fails_as<T>(r: Result<T>, kind: ErrorKind) -> bool {
    r matches Err(e) && e@.kind == kind
}

} // verus!
