//! Verified core of a single-VM launcher: building and serializing the
//! machine descriptor, bridging one-shot operation outcomes, driving the
//! create/identify/start lifecycle, and deciding console-attach retries.

pub mod bridge;
pub mod console;
pub mod descriptor;
pub mod emit;
pub mod lifecycle;
pub mod response;
