//! `appa`: a greeting for the command line.
//!
//! The crate has two parts. [`greeter`] turns an optional name into the
//! greeting text. [`entry`] decides, from the arguments of one invocation,
//! which lines that invocation writes.

pub mod entry;
pub mod greeter;

pub use entry::output_lines;
pub use greeter::greet;
