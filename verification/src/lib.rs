//! Verified core of the Toolbox media utilities: output naming and collision
//! resolution, resize and encoder-dimension arithmetic, FFmpeg and qpdf
//! argument plans, progress and report interpretation, job cancellation state,
//! batch accounting and the stable error codes shown to the user.

pub mod text;
pub mod errors;
pub mod models;
pub mod tools;
pub mod services;
