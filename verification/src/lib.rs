//! Classifies the synchronisation state of git working copies from the text
//! that `git status` and `git remote` print, and groups the results into a
//! report.

pub mod inspect;
pub mod listing;
pub mod repo;
pub mod report;
pub mod repo_state;
pub mod sizes;
pub mod status;
pub mod text;
