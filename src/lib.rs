//! Elementwise modular exponentiation `x[i]^n mod q` over fixed-width
//! integers: a data-parallel CPU engine, and the host-side decisions of the
//! device dispatch protocol (length check, coherence-aware map/unmap plan,
//! result read-back, device selection), each with a verified contract.

pub mod error;
pub mod exp_device;
pub mod exp_host;
pub mod number;

pub use error::{ErrorKind, ExpModError};
pub use exp_host::exp_cpu;
pub use number::Number;
