//! Typed configuration and session layer in front of a stable-diffusion
//! inference backend: sessions, parameter blocks, validation before each
//! backend call, and the mapping of backend status codes to typed errors.
use vstd::prelude::*;

pub mod block;
pub mod error;
pub mod names;
pub mod params;
pub mod scalar;
pub mod session;
pub mod task;
pub mod request;

verus! {

} // verus!
