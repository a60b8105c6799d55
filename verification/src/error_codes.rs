//! Stable error codes attached to coded errors for diagnostics.
use vstd::prelude::*;

verus! {

/// A connection could not be established or was refused.
pub const NETWORK_CONNECTION_FAILED: &'static str = "E1001";

/// A wait for the network ran out.
pub const NETWORK_TIMEOUT: &'static str = "E1002";

/// The network connection was lost.
pub const NETWORK_DISCONNECTED: &'static str = "E1003";

/// A message could not be used, or the relay reported an error.
pub const NETWORK_INVALID_MESSAGE: &'static str = "E1004";

/// The peer connection could not be made.
pub const WEBRTC_INIT_FAILED: &'static str = "E2001";

/// No offer could be made.
pub const WEBRTC_OFFER_FAILED: &'static str = "E2002";

/// No answer could be made.
pub const WEBRTC_ANSWER_FAILED: &'static str = "E2003";

/// An ICE candidate could not be used.
pub const WEBRTC_ICE_FAILED: &'static str = "E2004";

/// The data channel failed.
pub const WEBRTC_DATA_CHANNEL_FAILED: &'static str = "E2005";

/// Screen capture could not be set up.
pub const CAPTURE_INIT_FAILED: &'static str = "E3001";

/// A frame could not be captured.
pub const CAPTURE_FRAME_FAILED: &'static str = "E3002";

/// There is no display to capture.
pub const CAPTURE_NO_DISPLAY: &'static str = "E3003";

/// The encoder could not be set up.
pub const ENCODING_INIT_FAILED: &'static str = "E4001";

/// A frame could not be encoded.
pub const ENCODING_FRAME_FAILED: &'static str = "E4002";

/// The format of a frame cannot be encoded.
pub const ENCODING_FORMAT_UNSUPPORTED: &'static str = "E4003";

/// Input control could not be set up.
pub const INPUT_INIT_FAILED: &'static str = "E5001";

/// Input could not be injected.
pub const INPUT_SEND_FAILED: &'static str = "E5002";

/// No key could be generated.
pub const CRYPTO_KEY_GENERATION_FAILED: &'static str = "E6001";

/// Encryption failed.
pub const CRYPTO_ENCRYPTION_FAILED: &'static str = "E6002";

/// Decryption failed.
pub const CRYPTO_DECRYPTION_FAILED: &'static str = "E6003";

/// The key exchange failed.
pub const CRYPTO_KEY_EXCHANGE_FAILED: &'static str = "E6004";

/// The configuration is not valid.
pub const CONFIG_INVALID: &'static str = "E7001";

/// The configuration could not be loaded.
pub const CONFIG_LOAD_FAILED: &'static str = "E7002";

} // verus!
