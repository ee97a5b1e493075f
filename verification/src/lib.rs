//! Netrunner: the decision logic of a network speed-test and diagnostics tool,
//! stated and proved with Verus.
//!
//! The library holds what the tool decides and computes from plain values:
//! how a measurement is rated, how the logo and the intro border are laid out,
//! how the statistics dashboard reacts to keys and buckets its data, how the
//! history store keys, selects and retires records, how the simulated route
//! trace is built, and how the command line is interpreted.

pub mod float_bits;
pub mod tally;
pub mod text;
pub mod modules;
pub mod cli;
