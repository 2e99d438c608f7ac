//! A minimal container launcher: image references, the registry protocol's
//! decisions and the pull's stages, and the jail session's stages, command
//! and mount bookkeeping.
pub mod fetch;
pub mod image;
pub mod launcher;
pub mod reference;
pub mod session;
