//! Decoders for a family of battery-powered wireless weather sensors that
//! share one framing and integrity-check convention, together with the
//! configuration model of the application that publishes their readings.

pub mod config;
pub mod devices;
pub mod integrity;
pub mod message;
