//! A verified orchestrator for a model-conversion pipeline.
//!
//! The pipeline turns a named source artifact into a size-reduced binary by
//! driving four stages in order: toolchain acquisition, artifact fetch,
//! format conversion and size reduction. Every stage decision — which
//! external command to run next, when a stage may be skipped because its
//! output already exists, how often the network-dependent fetch is retried,
//! and which failure ends the run — is made by verified state machines in
//! this crate. The external work itself (probing a path, removing a file,
//! running a command) is handed to the caller as an explicit [`effect::Io`]
//! request, and the caller reports what happened as an [`effect::Event`].

pub mod convert;
pub mod effect;
pub mod fetch;
pub mod model;
pub mod paths;
pub mod pipeline;
pub mod reduce;
pub mod registry;
pub mod toolchain;
pub mod transform;
