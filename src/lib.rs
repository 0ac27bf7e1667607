//! Front-end for XISO disc images in the style of the legacy `extract-xiso`
//! utility: a parsed command line selects one of three operations and is
//! translated into the parameter record of the back-end that performs it.
pub mod args;
pub mod backend;
pub mod dispatch;
