//! Player backends.
pub mod chromecast;
pub mod local;

use vstd::prelude::*;

verus! {

/// Error wrapper for all player backends.
#[derive(Clone, Copy, Debug, PartialEq, Eq, Structural)]
pub enum Error {
    BackendNotInitialized,
    CannotLoadMedia,
}

/// Result type for player operations.
pub type Result = core::result::Result<(), Error>;

} // verus!
