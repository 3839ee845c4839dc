//! What holds of the store as a whole.

pub mod events;
pub mod finding;
pub mod keeping;
pub mod log;
pub mod meaning;
pub mod names;
pub mod reading;
pub mod rebuilding;
pub mod recording;
pub mod replay;
pub mod rows;
pub mod runs;
pub mod selecting;
pub mod settled;
pub mod storing;
pub mod sums;
pub mod texts;
pub mod windows;
pub mod written;
