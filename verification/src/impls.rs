//! Hardware driver front ends, selected by device arguments.

pub mod hackrfone;

pub use hackrfone::HackRfOne;
