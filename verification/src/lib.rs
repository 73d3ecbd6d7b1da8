//! Core logic of an 8-bit music sequencer: note and envelope types, the
//! transport (play / pause / reset) state machine, arrangement lookups and
//! the sample preparation behind WAV export and PCM hand-off.

pub mod basetype;
pub mod transport;
pub mod arrangement;
pub mod export;
pub mod wav;
