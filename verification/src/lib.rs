//! Buffers and error codes for the Kafka wire protocol.
pub mod bytes_ext;
pub mod protocol;
pub mod error;
pub mod customizations;
