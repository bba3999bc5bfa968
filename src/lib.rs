//! A wallpaper rotator's core: navigation over a paginated image sequence,
//! the names and queries of its on-disk caches, and the decisions of the
//! download coordinator. The program around it performs the I/O.
pub mod config;
pub mod coord;
pub mod names;
pub mod nav;
pub mod query;
