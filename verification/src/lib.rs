//! A typed, ownership-safe model of a minimal kernel-call interface.
//!
//! The crate covers the layer that sits between application code and a raw
//! kernel-call dispatcher: the error model for negative dispatch results, the
//! bitmask and scalar-enumeration families that parameterize each call, the
//! packed control-command and permission-mode encodings, the metadata record
//! and device-number composite, the resource-ownership model for descriptors,
//! and the descriptor-table semantics themselves, given here as a simulated
//! kernel so that every operation's effect is stated and proved rather than
//! assumed. The architecture-specific dispatch sequence itself cannot be
//! reasoned about and lives outside this crate.

pub mod device;
pub mod epoll;
pub mod error;
pub mod fcntl;
pub mod fdesc;
pub mod flags;
pub mod ioctl;
pub mod iovec;
pub mod kernel;
pub mod mode;
pub mod sock;
pub mod stat;
