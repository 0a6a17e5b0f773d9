//! The manufacturer-neutral machine layer: error kinds, models, the
//! local-network address rule and the backend-selection decisions.
pub mod discovery;
pub mod error;
pub mod models;
pub mod net;
pub mod registry;
pub mod retry;

pub use error::MachineError;
