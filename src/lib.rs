//! The core of a small pet-records application: the events exchanged between
//! the interactive side and a background worker, the worker's decisions over a
//! SQLite store, and the reconciliation of results into the application state.

pub mod db;
pub mod dispatch;
pub mod event;
pub mod form;
pub mod laws;
pub mod models;
