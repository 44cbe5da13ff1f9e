//! Keeps the Git marketplaces that a user has configured up to date.
//!
//! The library decides; the program around it acts. [`run`] goes through all marketplaces that were
//! asked for, [`upgrade`] brings one of them up to date, and [`record`] records that. They ask for
//! one thing at a time and go on with what came of it, so that Git, the disk and the clock stay
//! outside. [`upgrade_laws`] states what holds of every upgrade, whatever the outside answers.
//!
//! [`configured`] finds the marketplaces in the configuration that [`config`] holds,
//! [`user_config`] reads that configuration again before an upgrade is recorded, and [`cleanup`]
//! finds what interrupted upgrades have left behind. [`outcome`] says what came of a run.

pub mod cleanup;
pub mod config;
pub mod configured;
pub mod location;
pub mod messages;
pub mod outcome;
pub mod record;
pub mod run;
mod sequences;
pub mod text;
pub mod timestamp;
pub mod upgrade;
pub mod upgrade_laws;
pub mod user_config;
