//! Checks GitHub repositories against a configured standard of repository
//! settings, and works out the edits that bring a repository in line.

pub mod config;
pub mod report;
pub mod github;
pub mod standard;
pub mod text;
