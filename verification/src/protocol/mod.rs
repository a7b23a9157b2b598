//! Host protocol: the telemetry frame that carries an input snapshot.
pub mod telemetry;
