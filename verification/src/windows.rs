//! The Windows back-end: what to ask of the DNS client through `windns.h`, and what
//! its callbacks mean.

pub mod browse;
pub mod resolve;
pub mod wide;
