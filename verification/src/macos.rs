//! The macOS back-end: what to ask of mDNSResponder through `dns_sd.h`, and what
//! its replies mean.

pub mod meta;
pub mod native;
pub mod pump;
pub mod resolve;
