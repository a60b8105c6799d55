//! Core of a peer-to-peer remote-desktop client: signaling messages, the
//! session handshake, key agreement and authentication, adaptive bitrate
//! control, and the wire formats and validation rules around them.
#![allow(dead_code)]
#![allow(unused_imports)]

pub mod error;
pub mod error_codes;
pub mod text;
pub mod text_map;
pub mod ordering;
pub mod clock;
pub mod validation;
pub mod adaptive_bitrate;
pub mod primitives;
pub mod crypto;
pub mod json;
pub mod config;
pub mod audit;
pub mod network;
pub mod peer;
pub mod session;
pub mod requests;
pub mod protocol;
pub mod storage;
pub mod input_control;
pub mod screen_capture;
pub mod ui;
pub mod video_encoder;
pub mod streaming;

pub use audit::{AuditEvent, AuditLevel};
pub use config::Config;
pub use error::{GhostHandError, Result};
pub use network::generate_device_id;
pub use session::SessionManager;
pub use storage::{ConnectionHistory, KnownPeer, Storage, StorageStats};
pub use streaming::{InputHandler, Receiver, Streamer};
