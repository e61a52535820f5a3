//! A client for a remote scene-graph service that speaks JSON over one duplex
//! connection: the data model of slots and components, its wire codec, the
//! correlator that pairs replies with calls, and the adapter to an RPC schema.
//!
//! Everything here is pure: the library neither opens sockets nor reads text.
//! A caller parses text into [`json::Json`] documents, hands them in, and
//! carries out the actions that the library decides on.

pub mod text;

pub mod json;

pub mod named;

pub mod codec;

pub mod data_model;

pub mod serde_helpers;

pub mod messages;

pub mod responses;

pub mod controller;

pub mod pb;

pub mod server;

pub use controller::Correlator;
pub use messages::Message;
pub use responses::Response;
