//! Scheduling core of a personal study tool.
//!
//! A learner answers items that belong to concepts. Every answer is kept as an
//! immutable attempt, and from the newest attempt of each item this library
//! decides which retrieval phase the item is in, when it is due again, what a
//! day's plan holds and how well a concept is mastered.
//!
//! - [`fsrs`] is the continuous memory model: stability, difficulty and the
//!   interval that they ask for.
//! - [`sir_scheduler`] is the discrete model: the retrieval phase of an item
//!   and the date of its next review.
//! - [`mastery`] turns the attempts on a concept into a Brier score and a
//!   mastery score.
//! - [`planner`] picks the item to show next and makes the plan of a day.
//! - [`commands`] records an answer and closes a session.
//! - [`csv_import`] reads concepts from comma-separated text.
//! - [`models`] holds the records, [`fixed`] the arithmetic, [`clock`] the
//!   times that the wall clock can show.
//!
//! Real-valued quantities (stability, difficulty, accuracy) are held as
//! integers in millionths of their unit, scores as fractions of two integers;
//! timestamps are milliseconds since the Unix epoch.

pub mod clock;
pub mod commands;
pub mod csv_import;
pub mod fixed;
pub mod fsrs;
pub mod mastery;
pub mod models;
pub mod planner;
pub mod sir_scheduler;

mod ids;
