//! The pipeline's error taxonomy. Errors surface to the caller at once;
//! the only built-in retry is the bounded radio-reconnect polling of the
//! device session.

use vstd::prelude::*;

verus! {

/// Every way the pipeline can fail. Causes arising outside the library
/// (the filesystem, the serial link, the network, the manifest parser)
/// arrive as their diagnostic text.
#[derive(Debug, Clone, PartialEq, Eq)]
pub enum CliError {
    /// A filesystem operation failed.
    Io(String),
    /// The manifest's slot lies outside 1 through 8.
    SlotOutOfRange,
    /// The serial link failed.
    Serial(String),
    /// No device was found to connect to.
    NoDevice,
    /// The device kept replying after a channel switch was requested.
    RadioChannelDisconnectTimeout,
    /// The device never resumed replying after the channel switch began.
    RadioChannelReconnectTimeout,
    /// The manifest's runtime version is no version string; carries the
    /// parser's diagnostic text.
    InvalidVersion(String),
    /// The manifest could not be parsed.
    Manifest(String),
    /// The compiler ran and exited with a failure.
    Compiler { file: String, stderr: String },
    /// A network fetch failed.
    Network(String),
    /// The user's home directory could not be found.
    HomeDirNotFound,
    /// No manifest file was found.
    NoManifest,
}

} // verus!
