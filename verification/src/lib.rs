//! Verified core of a CI-failure helper.
//!
//! Two pipelines are modelled and proved here:
//!
//! - failure analysis: bounded log truncation, prompt construction,
//!   request preparation for a remote language-model endpoint, and
//!   multi-format extraction of the answer from its response;
//! - command dispatch: safe interpolation of untrusted values into a
//!   shell command line and a terminal-automation script.
//!
//! All string-handling logic is specified over `Seq<char>` views and
//! verified; the host around this crate performs the actual network
//! and process I/O.

pub mod client;
pub mod dispatch;
pub mod extract;
pub mod json;
pub mod numbers;
pub mod pr;
pub mod prompt;
pub mod quoting;
pub mod template;
pub mod text;
