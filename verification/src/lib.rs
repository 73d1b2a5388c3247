//! A typed ownership bridge for a reference-counted foreign object system,
//! as used by a GPU programming framework reached through dynamic message
//! dispatch.
//!
//! The foreign runtime owns the actual objects (devices, command queues,
//! libraries, textures); this crate provides the discipline around them:
//!
//! - typed handles that account for exactly one retain each
//!   ([`handle::Handle`]), released exactly once;
//! - a reference-count model ([`runtime::Runtime`]) against which the
//!   retain/release bookkeeping of every wrapping operation is verified;
//! - the exact wire constants of the framework's enumerated options, with
//!   proven round trips between variants and their wire integers;
//! - bitfield composition for resource options and flag sets;
//! - UTF-8 string interchange with the foreign string type, proven
//!   identity-preserving;
//! - classification of construction results that arrive as an
//!   object-pointer/diagnostic-pointer pair.
//!
//! The message dispatch itself is an unsafe platform ABI and stays outside
//! this crate; callers hand the raw results (references, byte buffers) to
//! the functions here.

pub mod commandbuffer;
pub mod depthstencil;
pub mod encoder;
pub mod diagnostic;
pub mod handle;
pub mod library;
pub mod misc;
pub mod pipeline;
pub mod resource;
pub mod runtime;
pub mod sampler;
pub mod text;
