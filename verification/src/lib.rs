//! Score keeping for a robotics competition: a registry of scoring actions
//! and the evaluator that reduces their counts to one score.

pub mod game;
pub mod config;
pub mod scoring;
pub mod control;
pub mod layout;
pub mod app;
