//! Session and buffer protocol around a vendor fingerprint-scanner provider.
//!
//! The provider itself (handle creation, device I/O, the biometric
//! algorithms) is an opaque native capability driven by the embedding
//! application. This crate holds the verified part: the session lifecycle
//! state machine, the ordering of the initialization sequence, the sizing
//! and sentinel-filling of every exchanged buffer, and the translation of
//! provider status codes into typed errors. Each provider call's outcome
//! enters the library as a plain value, and the library's contracts pin
//! down exactly what is decided from it.

mod info;
mod laws;
mod session;
mod status;

pub use info::DeviceInfo;
pub use session::{CleanupAction, ConfigAction, Stage, FPM};
pub use status::Error;
pub use status::{
    DEFAULT_BRIGHTNESS, DEVICE_PORT, DEVICE_SELECTOR_AUTO, SENTINEL_BYTE, STATUS_OK,
    STATUS_WRONG_IMAGE,
};
