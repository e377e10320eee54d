//! Trombone is a library for low-latency audio I/O.
//!
//! The verified part holds the stream lifecycle, stream settings, error
//! kinds, runtime metrics, backend selection and the arithmetic and
//! validation rules of each platform backend.
use vstd::prelude::*;

pub mod audio_core;
pub mod backend;

verus! {

} // verus!
