[package]
name = "mdns-sd-discovery"
version = "0.2.0"
edition = "2021"
publish = false

[dependencies]
futures-util = { version = "0.3", default-features = false }
libc = "0.2"
log = "0.4"
thiserror = "2"
tokio = { version = "1", features = ["macros", "rt", "rt-multi-thread", "sync", "time"] }
widestring = "1"
windows = { version = "0.62", features = ["Win32_Foundation", "Win32_NetworkManagement_Dns"] }
zbus = { version = "5", default-features = false, features = ["tokio"] }
