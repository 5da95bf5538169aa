//! A build and patch pipeline for Lua script sources that are shipped as
//! text-embedded assets.
//!
//! The pipeline bundles a source tree with an external bundler and then
//! rewrites every output script: call sites that request a named child script
//! (`NS`, `NLS`, `NewScript`, `NewLocalScript`) get the referenced file's
//! content spliced in as an inline long-bracket string literal, with all
//! other tokens left byte-identical. A companion development-server model
//! coalesces bursts of filesystem events into single rebuild triggers,
//! serializes build requests through a bounded single-consumer queue, and
//! manages the lifecycle of a preview HTTP endpoint and a public tunnel
//! session.

pub mod bundler;
pub mod debounce;
pub mod error;
pub mod escape;
pub mod filemap;
pub mod laws;
pub mod lexer;
pub mod matcher;
pub mod patch;
pub mod queue;
pub mod server;
pub mod token;
