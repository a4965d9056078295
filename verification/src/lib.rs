//! Synchronisation core of a desktop front end for a local container engine.
//!
//! The crate holds the cached inventory of containers, images and volumes,
//! the rules that turn the daemon's raw records into display records, and the
//! transition rules that the front end applies when a fetch or a start/stop
//! call resolves. All daemon traffic happens outside: callers hand the
//! outcome of each call to the store and perform the requests it returns.

pub mod records;
pub mod size;
pub mod store;
pub mod text;

pub use records::{ContainerInfo, ContainerState, ImageInfo, VolumeInfo};
pub use size::format_size;
pub use store::{AppState, Command, Event};
