//! Live shot telemetry relay: the text check on incoming payloads, a
//! fan-out bus that hands each admitted event to every live subscriber,
//! the decisions of the ingestion path and of the change-notification
//! listener, and the assembly of shot records from sensor readings.
pub mod shot;
pub mod codec;
pub mod bus;
pub mod relay;
pub mod bridge;
pub mod reading;
pub mod config;
