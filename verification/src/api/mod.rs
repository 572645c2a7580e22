//! The IETF Datatracker: building queries and reading answers.

pub mod datatracker;

pub use datatracker::DATATRACKER_BASE_URL;
