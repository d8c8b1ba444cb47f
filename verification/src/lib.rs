//! Streams over WebRTC data channels and over KCP, without the I/O.

pub mod address;
pub mod base64_text;
pub mod buffer;
pub mod description;
pub mod endpoint;
pub mod error;
pub mod kcp_io;
pub mod kcp_stream;
pub mod peer;
pub mod session;
pub mod setup;
pub mod text;
pub mod webrtc;
pub mod webrtc_dummy;
