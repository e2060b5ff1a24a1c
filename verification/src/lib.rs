//! An interactive input helper, stated and verified as a pure
//! read-parse-validate state machine.
//!
//! An [`Input`] value holds the configuration of one prompt: display text,
//! an optional default, an optional acceptance test, and the messages shown
//! when a line fails to parse or to validate.  Resolution consumes a sequence
//! of input lines and produces either a terminal value or a report that the
//! line source ran dry, together with the exact transcript of prompts and
//! messages written along the way.

pub mod confirm;
pub mod input;
pub mod laws;
pub mod parse;
pub mod resolve;
pub mod text;
pub mod validator;

pub use crate::confirm::{confirm, confirm_with_message};
pub use crate::input::{input, prompt, Input};
