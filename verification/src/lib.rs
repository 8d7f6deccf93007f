//! Real-time core of a software synthesizer: envelopes, voices and mixing.

pub mod amplitude;
pub mod concurrency;
pub mod curve;
pub mod dispatch;
pub mod envelope;
pub mod envelope_laws;
pub mod flag;
pub mod instrument;
pub mod manager;
pub mod output;
pub mod sampler;
