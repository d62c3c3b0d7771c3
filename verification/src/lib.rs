//! A persistence adapter between a host-provided key and session store and
//! the store contracts of a double-ratchet protocol engine.
//!
//! The host hands over loosely typed values; this library classifies them,
//! migrates the two older JSON encodings into the canonical record format,
//! caches what it has seen, and decides which host call comes next.
//!
//! Around the adapter stand the plain values it works on: addresses, keys
//! and records; an in-memory store; and a few helpers for keys, for the
//! MACs of synchronized collections and for sticker metadata.

pub mod appstate;
pub mod buffers;
pub mod cache;
pub mod curve;
pub mod errors;
pub mod host;
pub mod host_value;
pub mod key_helper;
pub mod keys;
pub mod legacy_sender_key;
pub mod legacy_session;
pub mod libsignal_store;
pub mod migration;
pub mod protocol_address;
pub mod records;
pub mod sender_key_name;
pub mod session_record;
pub mod sticker_metadata;
pub mod storage_adapter;
pub mod text;

