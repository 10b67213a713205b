//! Platform-independent decisions behind a thin Web Audio binding layer.
//!
//! The binding itself (handles to browser objects and the calls made on them)
//! lives with the host glue; this library holds the choices that glue makes:
//! which audio-context constructor to use, which media-capture API to call,
//! what a permission outcome hands to the caller, and which script-processor
//! parameters the platform supports.
use vstd::prelude::*;

pub mod context;
pub mod media;
pub mod processor;
