//! Verified core of a two-stage podcast processing pipeline.
//!
//! Episodes run through speech-to-text transcription and then speaker
//! diarization. This crate holds the verified logic of that pipeline: the
//! per-stage FIFO job queues with cooperative cancellation, the bookkeeping
//! of bounded-memory decoding and resampling, the chunked transcript
//! assembly, the diarization post-processing (speaker labels and solo
//! detection), the status model with its startup reconciliation, the
//! persistence semantics (replace, upsert), and the per-job orchestration
//! state machines. I/O, native inference and floating-point signal
//! processing live outside the crate and drive these functions with plain
//! values.

pub mod cancel;
pub mod decode;
pub mod diarize;
pub mod models;
pub mod orchestrate;
pub mod progress;
pub mod queue;
pub mod status;
pub mod store;
pub mod text;
pub mod transcribe;
