//! Core logic of a remote instrument-panel viewer: the request/reply link to
//! the bridge process, the per-connection control actor, the shared image
//! broadcaster with its subscriber roster, and the window discovery and
//! crop-geometry computations that feed the capture loop.

pub mod actor;
pub mod addon;
pub mod bridge;
pub mod capture;
pub mod config;
pub mod crop;
pub mod instruments;
pub mod link;
pub mod locator;
pub mod net;
pub mod paths;
pub mod session;
pub mod strutil;
