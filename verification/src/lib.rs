//! A verified control-and-event bridge core for a remote-playback audio
//! engine: the session and player lifecycle state machines, the
//! identifier codec, the event-translation layer, and error
//! normalization. The engine itself (network protocol, decoding, audio
//! output) is an external collaborator driven by an unverified shell
//! around this crate; everything the bridge decides or computes lives
//! here, with contracts.

pub mod bridge;
pub mod errors;
pub mod events;
pub mod ident;
pub mod lyrics;
