//! A typed layer over a graphics driver's programmable pipeline.
//!
//! The library decides; the caller talks to the driver. Every operation is
//! split at the points where the driver has to answer: a function here turns
//! what is known so far into the next request for the driver, or into the
//! final value, and the caller carries the driver's answer to the next
//! function. None of the functions touches the driver itself, so each of
//! them is a total function on plain values with an exact contract.

pub mod driver;
pub mod error;
pub mod program;
pub mod shader;
pub mod status;
pub mod text;
pub mod uniform;
