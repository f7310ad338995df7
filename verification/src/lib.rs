//! End-to-end-encrypted message receiving: blob framing, canonical metadata,
//! key storage encoding and the verify-then-decrypt pipeline.

pub mod bytes;
pub mod clipboard;
pub mod commands;
pub mod encoding;
pub mod format;
pub mod key_mgmt;
pub mod media;
pub mod order;
pub mod primitives;
pub mod receiver;
pub mod record;
pub mod startup;
