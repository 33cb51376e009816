//! A branch browser core: parsing of `git branch` listings into typed
//! records, a filterable, scrollable list view over them, and the decisions
//! that keys and command results lead to.

pub mod text;
pub mod branch;
pub mod format;
pub mod listing;
pub mod view;
pub mod tab;
pub mod command;
pub mod browser;
