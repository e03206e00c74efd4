//! 128-bit semantic fingerprints for text, source code, images, audio clips
//! and action commands.
//!
//! A fingerprint packs five fields into one `u128`: a modality tag, a coarse
//! scalar summary, two similarity hashes and a 48-bit exact-match hash.

pub mod action;
pub mod audio;
pub mod codec;
pub mod extract;
pub mod failure;
pub mod hashes;
pub mod laws;
pub mod picture;
pub mod render;
pub mod text;

pub use codec::Modality;
pub use codec::ToGen;
pub use extract::Source;
pub use failure::DecodeFailure;
pub use hashes::HashSource;
