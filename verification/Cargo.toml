[package]
name = "libcontainer"
version = "0.1.0"
edition = "2021"
publish = false

[dependencies]
libcgroups = { version = "0.1.0", default-features = false, features = ["v1", "v2"] }
oci-spec = { version = "0.6", default-features = false, features = ["runtime"] }
serde_json = "1.0"
thiserror = "1.0"
tracing = "0.1"
