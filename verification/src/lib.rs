//! Bridge between a logging facade and the OBS host's native logging entry
//! point.
//!
//! The crate models the facade side of the bridge: an ordered severity
//! domain with its translation to the native severity codes, a sink that
//! filters records against a fixed minimum level and renders them as
//! `[target] message` byte text, and the one-shot installation protocol that
//! registers exactly one sink for the process.
//!
//! The native call itself — handing a null-terminated byte string and a
//! severity code to the host library — is left to the embedding program,
//! which drives it from the values these functions return.

pub mod facade;
pub mod severity;
pub mod sink;

pub use facade::{install, install_with_level, FacadeState, SinkSlot};
pub use severity::{
    native_level, Severity, NATIVE_LOG_DEBUG, NATIVE_LOG_ERROR, NATIVE_LOG_INFO,
    NATIVE_LOG_WARNING,
};
pub use sink::{render, Dispatch, LogError, LogRecord, LogSink};
