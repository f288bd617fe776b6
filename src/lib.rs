//! Detection core of a window-focus monitor: event classification, burst
//! suppression, process-ancestry assembly, heuristics and log rendering.

pub mod cache;
pub mod capture;
pub mod dedup;
pub mod display;
pub mod entry;
pub mod event;
pub mod heuristics;
pub mod notification;
pub mod process;
pub mod screenshot;
pub mod sink;
pub mod stamp;
pub mod text;
pub mod worker;
