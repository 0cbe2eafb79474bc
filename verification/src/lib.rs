//! Core of an HTTP reachability checker: expanding raw user inputs into
//! candidate URLs, planning a request from per-batch settings, turning the
//! outcome of one fetch into a diagnostic record (status code, page title,
//! server banner, content length, redirect target), and orchestrating a
//! batch of concurrent probes so that every candidate yields exactly one
//! record and the batch ends with exactly one completion signal.
//!
//! The network itself is driven by the surrounding application; everything
//! that decides or computes lives here, specified and verified.

pub mod batch;
pub mod config;
pub mod extract;
pub mod normalize;
pub mod probe;
pub mod headers;
pub mod text;
