//! Host-side model of LV2 plugin metadata and plugin instance lifecycles.
//!
//! The modules here hold the decisions of the host runtime in verified form:
//! typed value nodes, node collections and their cursor protocol, the
//! instance lifecycle, the URID map, and the metadata queries built on them.
pub mod collection;
pub mod feature;
pub mod instance;
pub mod node;
pub mod plugin;
pub mod port;
pub mod ui;
pub mod world;
