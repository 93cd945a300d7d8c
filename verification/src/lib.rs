//! Verified core of a microphone-capture utility.
//!
//! The crate models the capture/convert/persist path of a small recorder:
//! a device-native sample stream is converted to a uniform output sample
//! representation, appended through a single-writer audio sink into a
//! WAV-formatted byte stream, and finalized exactly once.  The surrounding
//! device, file and network plumbing stays outside the library and hands in
//! plain values (device configurations, sample buffers, call outcomes).

pub mod format;
pub mod session;
pub mod sink;
pub mod transcript;
pub mod wav;
