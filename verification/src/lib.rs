//! The decision logic of a wiki crawler: a lister that walks a paginated
//! listing, batchers that group titles into bounded fetches, the transform
//! that flattens a fetch response into records, and a writer that keeps the
//! first record of every page identifier.
//!
//! Nothing here performs I/O. Each stage is a state machine that is handed
//! events and answers with the next action, so that a driver can run it over
//! real channels, timers and sockets.

pub mod api;
pub mod batcher;
pub mod config;
pub mod flatten;
pub mod lister;
pub mod structs;
pub mod writer;
