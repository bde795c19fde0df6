//! A capture-session engine: the data model, the session state machine, the
//! decisions of the capture loop, and the registry of sessions.

pub mod model;
pub mod settings;
pub mod session;
pub mod control;
pub mod registry;
pub mod export;
pub mod laws;
