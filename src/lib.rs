//! Media-graph core of an underwater vehicle operator console: codec stage
//! naming, the stage graph builder, live branch attach/detach, frame delivery
//! decisions and a single-threaded future/promise primitive.

pub mod branch;
pub mod codec;
pub mod config;
pub mod future;
pub mod graph;
pub mod sink;
pub mod source;
pub mod stage;
pub mod video;
