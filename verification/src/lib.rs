//! Translation of UWB core operation outcomes into the primitive values
//! that cross the foreign-function boundary.
//!
//! An outcome is a `Result` holding either a success payload or an
//! [`Error`] kind from a closed set. The helpers translate an outcome into
//! a boolean byte, a signed status byte, or an optional payload, and the
//! diagnostic line for a failed outcome is built by
//! [`failure_message`](helper::failure_message). The translation itself is
//! total and pure: the returned value is a function of the outcome alone.

pub mod error;
pub mod helper;
pub mod status;

pub use error::Error;
pub use helper::boolean_result_helper;
pub use helper::byte_result_helper;
pub use helper::failure_message;
pub use helper::option_result_helper;
pub use helper::result_to_status_code;
pub use status::StatusCode;
