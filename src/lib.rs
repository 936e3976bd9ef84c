//! Personal time tracking: categories with weekly quotas, a capped set of
//! tags, timed sessions, and reports of time worked against the quotas.
pub mod models;
pub mod category_manager;
pub mod tag_manager;
pub mod clock;
pub mod session_manager;
pub mod period;
pub mod analysis_manager;
pub mod commands;
