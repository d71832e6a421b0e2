//! Decisions of the workers that run a cast connection: what to send and
//! report in answer to messages from the device, and what to poll for.
pub mod read;
pub mod status;
