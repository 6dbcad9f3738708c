//! State-synchronisation core of a proximity voice-chat bridge: the wire
//! model of the envelope protocol, the per-instance state store, the session
//! registry, the command dispatcher and the event emitter.

pub mod codec;
pub mod dispatch;
pub mod events;
pub mod game;
pub mod keyed;
pub mod protocol;
pub mod registry;
pub mod settings;
pub mod sound;
pub mod store;
