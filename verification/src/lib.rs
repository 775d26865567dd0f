//! Packet decoding and validation for a low-power mesh radio network.
//!
//! A received frame is a 16-byte header followed by an encrypted payload.
//! It passes through three steps, each of which consumes the value of the
//! step before, so that no step can be skipped or repeated:
//!
//! 1. [`Packet::from_bytes`] parses the header and takes an owned copy of
//!    the ciphertext, giving a `Packet<Encrypted>`;
//! 2. [`Packet::decrypt`] applies the channel's stream cipher under the
//!    initialization vector that the header determines, giving a
//!    `Packet<Decrypted>`;
//! 3. [`Packet::decode`] reads the plaintext as an application message,
//!    giving a [`DecodedPacket`].
//!
//! Beside the pipeline stand [`parse_key`], which derives 32 bytes of key
//! material from a base64 key, [`channel_hash`], which derives a channel
//! identifier from a channel name, and [`validate_packet_structure`], a
//! cheap structural check of a frame.
//!
//! Every buffer has a fixed capacity; input that does not fit is cut, never
//! grown into. Every function is verified against the contract in its
//! header. The base64 engine, the AES counter-mode cipher and the
//! protocol-buffer decoder are called from other crates through small
//! functions whose contracts are taken on trust; each of them says so.

pub mod bytes;
pub mod channel;
pub mod error;
pub mod header;
pub mod key;
pub mod message;
pub mod packet;
pub mod validate;

pub use channel::channel_hash;
pub use error::CryptoError;
pub use header::Header;
pub use key::{create_debug_key, parse_key, ChannelKey};
pub use message::{DataMessage, OwnedData};
/// The registered port numbers, for reading a decoded message's `portnum`.
pub use meshtastic_protobufs::meshtastic::PortNum;
pub use packet::{Decoded, DecodedPacket, Decrypted, Encrypted, Packet};
pub use validate::{inspect_packet_structure, validate_packet_structure, StructureReport};
