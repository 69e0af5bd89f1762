//! The mihomo API: its data types, the requests the client makes, and the
//! addresses of its streaming endpoints.

pub mod client;
pub mod types;
