//! The control plane of a terminal groove box: project snapshots, the step
//! sequencer, voice allocation, parameter resolution, recording and the
//! integer state of the signal processors. Sample arithmetic lives outside.
pub mod audio;
pub mod dsp;
pub mod model;
