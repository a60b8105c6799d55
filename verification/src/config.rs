//! The configuration that the core is handed: plain values, read from
//! nowhere by the core itself.
use vstd::prelude::*;
use vstd::string::*;
use crate::text::concat3;

verus! {

/// The port of the relay where none is configured.
pub const DEFAULT_SERVER_PORT: &'static str = "9000";

/// All that the core is configured with.
#[derive(Debug, Clone)]
pub struct Config {
    /// Signaling server URL
    pub server_url: String,
    /// STUN servers that help traverse address translation
    pub stun_servers: Vec<String>,
    /// TURN servers, if any
    pub turn_servers: Vec<TurnServer>,
    /// Video encoding settings
    pub video_config: VideoConfig,
    /// Network settings
    pub network_config: NetworkConfig,
    /// Security settings
    pub security_config: SecurityConfig,
}

/// A TURN server and the credentials for it.
#[derive(Debug, Clone)]
pub struct TurnServer {
    pub url: String,
    pub username: String,
    pub credential: String,
}

/// How video is encoded.
#[derive(Debug, Clone)]
pub struct VideoConfig {
    /// Target framerate (fps)
    pub framerate: u32,
    /// Video codec
    pub codec: VideoCodec,
    /// Bitrate in kbps
    pub bitrate: u32,
    /// Whether hardware acceleration is wanted
    pub hardware_acceleration: bool,
    /// Capture resolution; `None` stands for the native one
    pub resolution: Option<(u32, u32)>,
}

/// The video codecs.
#[derive(Debug, Clone, Copy, PartialEq, Eq, Structural)]
pub enum VideoCodec {
    H264,
    H265,
    VP8,
    VP9,
    AV1,
}

/// Limits of the network.
#[derive(Debug, Clone)]
pub struct NetworkConfig {
    /// Largest packet on the peer data channel, in bytes
    pub max_packet_size: usize,
    /// Connection timeout in seconds
    pub connection_timeout: u64,
    /// Whether IPv6 is used
    pub enable_ipv6: bool,
}

/// What security asks for.
#[derive(Debug, Clone)]
pub struct SecurityConfig {
    /// Whether traffic is encrypted end to end
    pub e2e_encryption: bool,
    /// Whether a peer must authenticate
    pub require_auth: bool,
    /// Path of a certificate of a private authority, if any
    pub cert_path: Option<String>,
}

/// The URL of the relay on the local machine at `port`.
pub open spec fn local_server_url(port: Seq<char>) -> Seq<char> {
    "ws://localhost:"@ + port + "/ws"@
}

impl Config {
    /// The default configuration for a relay on the local machine at `port`:
    /// two public STUN servers, no TURN server, and the default video,
    /// network and security settings.
    pub fn for_port(port: &str) -> (config: Self)
        ensures
            config.server_url@ == local_server_url(port@),
            config.stun_servers@.len() == 2,
            config.stun_servers@[0]@ == "stun:stun.l.google.com:19302"@,
            config.stun_servers@[1]@ == "stun:stun1.l.google.com:19302"@,
            config.turn_servers@.len() == 0,
            config.video_config == VideoConfig::default_settings(),
            config.network_config == NetworkConfig::default_settings(),
            config.security_config == SecurityConfig::default_settings(),
    {
        let mut stun_servers: Vec<String> = Vec::new();
        stun_servers.push("stun:stun.l.google.com:19302".to_string());
        stun_servers.push("stun:stun1.l.google.com:19302".to_string());
        Config {
            server_url: concat3("ws://localhost:", port, "/ws"),
            stun_servers,
            turn_servers: Vec::new(),
            video_config: VideoConfig::default(),
            network_config: NetworkConfig::default(),
            security_config: SecurityConfig::default(),
        }
    }
}

impl Default for Config {
    /// The default configuration for a relay on the local machine at the
    /// default port.
    fn default() -> (config: Self)
        ensures
            config.server_url@ == local_server_url(DEFAULT_SERVER_PORT@),
            config.stun_servers@.len() == 2,
            config.turn_servers@.len() == 0,
            config.video_config == VideoConfig::default_settings(),
            config.network_config == NetworkConfig::default_settings(),
            config.security_config == SecurityConfig::default_settings(),
    {
        Config::for_port(DEFAULT_SERVER_PORT)
    }
}

impl VideoConfig {
    /// 30 frames per second of H.264 at 4 Mbps, with hardware acceleration,
    /// at the native resolution.
    pub open spec fn default_settings() -> VideoConfig {
        VideoConfig {
            framerate: 30,
            codec: VideoCodec::H264,
            bitrate: 4000,
            hardware_acceleration: true,
            resolution: None,
        }
    }
}

impl Default for VideoConfig {
    fn default() -> (config: Self)
        ensures
            config == VideoConfig::default_settings(),
    {
        VideoConfig {
            framerate: 30,
            codec: VideoCodec::H264,
            bitrate: 4000,
            hardware_acceleration: true,
            resolution: None,
        }
    }
}

impl NetworkConfig {
    /// Packets of at most 64 KiB, thirty seconds to connect, IPv6 in use.
    pub open spec fn default_settings() -> NetworkConfig {
        NetworkConfig { max_packet_size: 65536, connection_timeout: 30, enable_ipv6: true }
    }
}

impl Default for NetworkConfig {
    fn default() -> (config: Self)
        ensures
            config == NetworkConfig::default_settings(),
    {
        NetworkConfig { max_packet_size: 65536, connection_timeout: 30, enable_ipv6: true }
    }
}

impl SecurityConfig {
    /// Encryption end to end and authentication, without a certificate of
    /// one's own.
    pub open spec fn default_settings() -> SecurityConfig {
        SecurityConfig { e2e_encryption: true, require_auth: true, cert_path: None }
    }
}

impl Default for SecurityConfig {
    fn default() -> (config: Self)
        ensures
            config == SecurityConfig::default_settings(),
    {
        SecurityConfig { e2e_encryption: true, require_auth: true, cert_path: None }
    }
}

} // verus!
