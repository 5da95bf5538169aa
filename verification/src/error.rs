//! The pipeline's failure taxonomy.
//!
//! Every failure is a recoverable error value: validation failures abort one
//! build, bundler and parse failures abort one build or one file's patch,
//! and tunnel or watcher failures are reported without stopping the server.
//! No operation panics on any of these.

use vstd::prelude::*;

verus! {

/// An error reported by the pipeline or the development server.
#[derive(Debug)]
pub enum Error {
    /// The bundler reported failures; each entry is one bundler error
    /// message, with the full list retained rather than collapsed.
    Darklua(Vec<Vec<u8>>),
    /// A file requested by a qualifying call could not be resolved under the
    /// output root; holds the requested file name. Fatal for the file being
    /// patched, so no partial patch is produced for it.
    Io(Vec<u8>),
    /// The Lua parser rejected a file; holds the parser's message. Fatal for
    /// that file.
    FullMoon(Vec<u8>),
    /// The tunnel failed.
    Localtunnel,
    /// Connecting the tunnel session failed.
    LocaltunnelConnect,
    /// Disconnecting the tunnel failed: no session was listening for the
    /// shutdown signal.
    LocaltunnelDisconnect,
    /// Setting up the filesystem watcher failed; holds the watcher message.
    NotifyAddPaths(Vec<u8>),
    /// The input path and the output path do not have the same shape: one
    /// is a directory and the other a single file.
    InputOutputMismatch,
    /// The input path does not exist.
    InputMissing,
    /// The output path does not exist.
    OutputMissing,
}

} // verus!
