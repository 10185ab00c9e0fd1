//! Service discovery over DNS-SD: the data model, the wire formats and the
//! decisions that the Avahi, macOS and Windows back-ends make.
//!
//! The crate performs no I/O. Each back-end module turns what the platform
//! reported (a signal, a callback, a status code) into what has to happen
//! next: a browse to start, an instance to resolve, an event to deliver.

pub mod addr;
pub mod browse;
pub mod dbus;
pub mod labels;
pub mod linux;
pub mod macos;
pub mod seen;
pub mod text;
pub mod txt;
pub mod windows;

pub use crate::addr::{IpAddr, NonZeroU32, SocketAddr};
pub use crate::browse::{
    BrowseEvent, DiscoveredService, RemovedService, ServiceBrowseError, ServiceBrowserBuilder,
    ServiceResolverBuilder,
};
pub use crate::txt::TxtRecord;
