//! Freshness of a project's declared dependencies: the versions a manifest
//! declares are held against the versions a resolver selects today, and the
//! comparisons are reduced to one aggregate status.
//!
//! The library decides and computes; it performs no input or output. A
//! request is a [`pipeline::Pipeline`]: it says what is to be done next
//! (fetch the manifest, lay out a sandbox, run the resolver, read the lock
//! file) and takes what came of it. The stages of a request:
//!
//! - [`source`]: where the manifest is fetched from, which responses count;
//! - [`manifest`]: the dependencies that a manifest declares;
//! - [`sandbox`]: the workspace in which the resolver runs, and its command;
//! - [`lock`]: the versions that the resolver selected;
//! - [`engine`]: one status per dependency, combined into the aggregate;
//! - [`badge`]: the request parameter and the image that answers it.
//!
//! Structured text is read by the `toml` crate ([`document`]) and versions
//! are read and ordered by the `semver` crate ([`version`]).

pub mod badge;
pub mod document;
pub mod engine;
pub mod error;
pub mod lock;
pub mod manifest;
pub mod name_map;
pub mod pipeline;
pub mod sandbox;
pub mod source;
pub mod status;
pub mod version;
