//! Host-side bridge between an HTTP transport and an isolated,
//! capability-restricted guest module.
//!
//! The bridge builds a per-request execution context (capability table,
//! captured diagnostic streams, outbound-call policy), adapts the transport
//! request for the guest, awaits the guest's write-once response outparam
//! through a one-shot completion signal, and adapts the guest's response
//! back for the transport.  The sandboxing runtime and the transport itself
//! are external collaborators; this crate holds the bridging decisions and
//! the completion-signalling protocol.

pub mod adapter;
pub mod bridge;
pub mod completion;
pub mod context;
pub mod errors;
pub mod guest_echo;
pub mod headers;
pub mod http_model;
pub mod policy;

pub use errors::BridgeError;
pub use errors::ErrorCode;
