//! Core library for Devil Daggers telemetry: byte utilities, the spawnset and
//! replay codecs, the live stats-block reader and the submission builder.

pub mod codec;
pub mod models;
pub mod utils;
pub mod memory;
pub mod ddinfo;
