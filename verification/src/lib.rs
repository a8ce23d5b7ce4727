//! Message framing, response parsing and status decoding for the Intel AMT
//! Host Interface (IAMTHIF) spoken over the Linux MEI character device.
pub mod names;
pub mod wire;
pub mod message;
pub mod text;
pub mod response;
pub mod versions;
pub mod client;
pub mod report;
pub mod cli;
pub mod report_error;

