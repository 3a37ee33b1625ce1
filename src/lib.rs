//! Session handling for a push-based event feed: the typed event model, the
//! frame decoder, and the state machine that reacts to handshakes,
//! notifications and transport failures.

pub mod events;
pub mod frame;
pub mod session;
pub mod connection;
