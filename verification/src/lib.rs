//! Recording-session lifecycle and upload-coordination engine.
//!
//! The library owns the single active capture session and drives it through
//! start / pause / resume / stop / cancel / restart / delete transitions,
//! decides between a progressive multipart upload and a fallback full-file
//! upload for instantly-shared recordings, and assembles the metadata that is
//! persisted for every successfully stopped session.
//!
//! All outside work (the capture engine, the remote video service, the
//! filesystem, windows and dialogs) is performed by the embedding process;
//! its outcomes enter the library as plain values, and every decision taken
//! on them is verified.

pub mod inputs;
pub mod meta;
pub mod session;
pub mod upload;
pub mod ident;
pub mod lifecycle;
pub mod laws;

use vstd::prelude::*;

verus! {

} // verus!
