//! Device and backend management for array computations that run on several
//! compute backends: the catalog of devices, the active device, and the
//! switches that move the runtime from one device to another.

pub mod device;
pub mod error;
pub mod laws;
pub mod loss;
mod runtime;
