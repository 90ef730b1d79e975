//! Status synchronisation for a desktop overlay that mirrors a remote voice
//! assistant: record decoding, the reconciliation state machine, the idle
//! monitor, the stream frame decoder and the transport's decisions.

pub mod text;
pub mod record;
pub mod rules;
pub mod state;
pub mod frame;
pub mod transport;
pub mod settings;
pub mod laws;
