//! Build sequencing and configuration reconciliation for feL4 kernel images.
//!
//! The library decides; the caller performs. Flags declared in the
//! application manifest become a typed model, rendered into the
//! compiler's feature-flag environment value, and compared after the build
//! against the native build system's resolved cache.

use vstd::prelude::*;

pub mod flags;
pub mod rustflags;
pub mod target;
pub mod command;
pub mod reconcile;
pub mod pipeline;
pub mod invocation;
