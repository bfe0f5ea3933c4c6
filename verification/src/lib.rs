//! Admission and dispatch rules of a relay in front of the Gwent speech daemon.

pub mod admission;
pub mod catalog;
pub mod config;
pub mod deadline;
pub mod dispatch;
pub mod format;
pub mod http;
pub mod json;
pub mod number;
pub mod probe;
pub mod reconcile;
pub mod text;
pub mod url;
