//! Signaling layer for a remote game-control receiver: a registry that maps
//! symbolic input names to integer action codes, and a datagram codec that
//! packs a (target index, action code) pair into a fixed eight-byte
//! little-endian payload.

pub mod actions;
pub mod codec;
pub mod keys;
pub mod random;
pub mod registry;
pub mod target;
