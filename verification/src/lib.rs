//! Session lifecycle and streaming-I/O core of a structured-data conversion
//! service: bounded ingestion, ephemeral workspace management, shape
//! sniffing, engine-configuration translation, output dispatch and preview
//! composition, with the surrounding contracts proved.

pub mod acquire;
pub mod archive;
pub mod copy;
pub mod engine;
pub mod error;
pub mod output;
pub mod preview;
pub mod session;
pub mod sniff;
pub mod text;
