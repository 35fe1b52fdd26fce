//! Typed request options for the repository endpoints of a REST API:
//! option enums with their wire strings, builders that collect query
//! parameters, their form encoding, and the paths of the resources.

pub mod wire;
pub mod params;
pub mod encoding;
pub mod list_options;
pub mod repo_options;
pub mod accessors;
