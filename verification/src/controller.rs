//! What one connection needs to keep calls and replies apart.

pub mod command_client;
pub mod id_generator;

pub use command_client::{ClientError, Correlator, Delivery, Submission};
pub use id_generator::IdGenerator;
