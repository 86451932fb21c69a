//! A lap-timing engine for vehicle telemetry: geometric crossing detection
//! over a start/finish line, the Track/Lap/Session state machine, and the
//! decision core of the ingestion pipeline that feeds decoded samples into
//! that state machine.

pub mod catalog;
pub mod display;
pub mod geometry;
pub mod ingest;
pub mod timer;
