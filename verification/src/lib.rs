//! Mental-arithmetic drills scheduled by spaced repetition.
//!
//! The crate holds the engine of a personal study tool: it grades an answer
//! from its correctness and latency, advances the SM-2 style review schedule
//! of the question, and composes a practice block out of the questions that
//! are due and freshly generated ones. Storage, clocks and presentation are
//! left to the caller, who hands in plain values and takes plain values back.
//!
//! Quantities that are fractional by nature are kept in fixed point: times in
//! whole milliseconds, the ease factor in thousandths, percentages in
//! hundredths of a percent, instants in whole seconds since the Unix epoch.

pub mod text;
pub mod calendar;
pub mod operations;
pub mod spaced_repetition;
pub mod deck;
pub mod answer_evaluator_service;
pub mod quiz_service;
pub mod persist;
pub mod session;
pub mod review_items;
pub mod time_statistics;
pub mod kinds;
pub mod accuracy;
pub mod report;
pub mod time_format;
pub mod streak;
pub mod date_provider;
pub mod database_factory;
pub mod cli;
pub mod row_factories;
