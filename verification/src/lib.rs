//! Core of a proxy for the EDF "Tempo" tariff calendar: a date-keyed status
//! cache, the cutoff rule that gates requests for tomorrow's status, and the
//! merge logic that reconciles cached and freshly fetched entries.

pub mod cache;
pub mod date;
pub mod error;
pub mod mime;
pub mod status;
pub mod tempo_service;
pub mod upstream;
