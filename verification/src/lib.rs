//! Bring-up logic for a Lightning node daemon: configuration translation,
//! readiness decisions, the TLS identity guard, the wallet lifecycle and the
//! status properties document.
//!
//! Every function here is a pure decision or computation on plain values. The
//! surrounding program performs the file, process and network operations and
//! feeds their results back in.

pub mod alias;
pub mod backend;
pub mod cert;
pub mod codec;
pub mod config;
pub mod pem;
pub mod readiness;
pub mod request;
pub mod stats;
pub mod text;
pub mod wallet;

pub use readiness::local_port_available;
pub use stats::{Data, LndGetInfoRes, Properties, Property};
pub use wallet::{CipherSeedMnemonic, RestoreInfo};
