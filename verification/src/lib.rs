//! An authorization-gated byte-buffer echo service.
//!
//! Callers write byte payloads into fixed-size buffer records. A buffer may be
//! anonymous, writable by anyone exactly once while it is still all zero, or
//! authorized, bound by a deterministic address derivation to the identity
//! that created it: only a caller who proves possession of that identity may
//! rewrite it. The modules below hold the error taxonomy, the identity and
//! record layout, the address derivation engine, the protocol state machine
//! that ties them together, and the proved laws of the whole.

pub mod derivation;
pub mod error;
pub mod identity;
pub mod laws;
pub mod processor;
pub mod state;

pub use error::EchoError;
pub use identity::Identity;
pub use processor::Processor;
pub use state::{AuthorizedBufferHeader, VendingMachineBufferHeader};
