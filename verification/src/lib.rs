//! Build-time provisioning of the sidecar executable that ships beside the
//! launcher.
//!
//! The crate decides; its caller acts.  Every name, path and transition is
//! computed here from plain values, and the caller performs the file system
//! and subprocess work that each step asks for.

pub mod artifact;
pub mod config;
pub mod dev;
pub mod error;
pub mod model;
pub mod plan;
pub mod protocol;
pub mod provisioner;
pub mod release;
pub mod text;
pub mod triple;
