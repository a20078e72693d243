//! A personal command bookmarking library: an entry store with an id
//! allocator, the interactive application's state machine, key bindings,
//! and the text shown to the user.

pub mod app;
pub mod commands;
pub mod error;
pub mod keys;
pub mod listing;
pub mod models;
pub mod runner;
pub mod storage;
pub mod text;
pub mod view;
