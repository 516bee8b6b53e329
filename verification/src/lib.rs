//! Core logic of an environmental-sensor node.
//!
//! The node reads temperature, humidity, illuminance and gas sensors over one
//! shared bus, aggregates the latest reading per quantity, and periodically
//! encodes and submits a snapshot to a time-series backend. This crate holds
//! the decisions and computations of that pipeline — delay-path selection,
//! sensor registry policy, measurement aggregation with the gas sensor's
//! warm-up gate, schedule lock discipline, and the wire encoding — each with a
//! verified contract. The hardware bus, the wireless link and the HTTP
//! transport are driven by the surrounding (unverified) binary, which feeds
//! plain values into these functions and acts on what they return.

pub mod aggregator;
pub mod delay;
pub mod registry;
pub mod schedule;
pub mod telemetry;
pub mod textfmt;

pub use delay::GeneralPurposeDelay;
