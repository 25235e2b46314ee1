//! The audio engine around the project: snapshots, sequencing, voices, the
//! command queue and recording.
pub mod arpeggio;
pub mod channel;
pub mod command;
pub mod controls;
pub mod cue;
pub mod device;
pub mod laws;
pub mod naming;
pub mod pool;
pub mod queue;
pub mod recording;
pub mod renderer;
pub mod schedule;
pub mod sequencer;
pub mod slot;
pub mod snapshot;
pub mod status;
pub mod transport;
pub mod voice;
pub mod writer;
