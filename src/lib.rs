//! Multi-source media ingestion: per-source stream workers, the rules that
//! drive their lifecycle, and the supervisor that joins them before the
//! shared frame channel closes.

pub mod cli;
pub mod config;
pub mod lifecycle;
pub mod streams;
pub mod supervisor;
