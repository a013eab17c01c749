//! A sequential, checked protocol layer around the libvpx VP8/VP9 encoder.
//!
//! The engine itself is driven by the surrounding application; this library
//! holds everything that is decided on either side of an engine call: the
//! integer codes and bit masks handed to the engine, the interpretation of
//! the statuses and packets it hands back, and the order in which a session
//! may be created, fed, drained and torn down.

pub mod encoder;
pub mod error;
pub mod image;

