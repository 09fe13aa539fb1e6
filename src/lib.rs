//! Verified core of a downloader for serialized comic catalogs: catalog id
//! resolution, manifest decryption and extraction, request encoding,
//! response envelopes and the per-episode admission rules.

pub mod cipher;
pub mod episode;
pub mod error;
pub mod manifest;
pub mod request;
pub mod resolver;
pub mod structs;
pub mod text;
