//! Hot-swapping of a compiled GPU pipeline while frames that use the old
//! one may still be in flight.
//!
//! The library holds the decisions: which pipeline is current, which retired
//! pipelines are kept alive, when they can be released, when a shader source
//! change calls for a rebuild, and what text a rebuild compiles. Building a
//! pipeline, drawing and touching the file system are left to the caller.
pub mod lifecycle;
pub mod source;
pub mod trigger;
