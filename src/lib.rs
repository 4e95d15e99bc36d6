//! Decision logic for replaying a recorded game capture into two record
//! streams: raw packets and game-state snapshots taken at tick boundaries.
//!
//! The library decides; the caller decodes packets and writes files. Each
//! pulled packet becomes an [`ingest::Event`], and [`ingest::Ingest::on_event`]
//! answers with the [`ingest::Action`] to carry out.

pub mod capture;
pub mod errors;
pub mod ingest;
pub mod laws;
pub mod outputs;
