//! A length-prefixed binary message protocol and the relay that speaks it.
//!
//! One frame on the wire:
//!
//! ```text
//! +------------+------------+------------+----------------+
//! | 1 byte     | 1 byte     | 4 bytes    | N bytes        |
//! | version    | type       | length     | payload        |
//! +------------+------------+------------+----------------+
//! ```
//!
//! The length is an unsigned big-endian integer. Nothing in this crate touches
//! a socket: readers and writers work on bytes held in memory, and the relay
//! and the per-connection session are state machines that say what is to be
//! sent, read or closed next.

pub mod client;
pub mod content;
pub mod error;
pub mod frame;
pub mod header;
pub mod read;
pub mod registry;
pub mod relay;
pub mod server;
pub mod session;
pub mod text;
pub mod wire;
pub mod write;

pub use client::Client;
pub use content::ContentType;
pub use content::PROTOCOL_VERSION;
pub use error::IoFailure;
pub use error::SBMPError;
pub use frame::Frame;
pub use header::Header;
pub use read::FrameReader;
pub use registry::ClientRegistry;
pub use relay::Effect;
pub use relay::Message;
pub use server::Connection;
pub use session::ClientError;
pub use session::ConnectionEnd;
pub use session::Session;
pub use write::build_frame;
pub use write::encode_frame;
pub use write::encode_text;
pub use write::FrameWriter;
