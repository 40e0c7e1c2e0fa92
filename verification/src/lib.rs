//! Core library of a Windows desktop screen recorder: the capture session
//! state machine, the bounded backpressure queue feeding the video encoder,
//! encoder selection and pacing, multi-track audio bookkeeping, and the
//! audio/video mux planning — all with verified contracts.

use vstd::prelude::*;

pub mod audio;
pub mod commands;
pub mod config;
pub mod dsp;
pub mod encoder;
pub mod manager;
pub mod models;
pub mod mux;
pub mod pipeline;
pub mod provider;
pub mod region;
pub mod runtime;
pub mod shortcuts;
pub mod status;
pub mod text;
pub mod wav;

verus! {

/// Default frame rate used when a session config does not name one.
pub fn default_fps() -> (r: u32)
    ensures
        r == 30,
{
    30
}

} // verus!
