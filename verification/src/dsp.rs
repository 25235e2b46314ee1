//! Integer state of the signal processors.
pub mod chain;
pub mod envelope;
pub mod laws;
pub mod limiter;
pub mod noise;
pub mod predelay;
pub mod ramp;
pub mod ring;
pub mod tail;
