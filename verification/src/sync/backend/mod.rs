//! Sync transport backends.
//!
//! A backend deals only in opaque encrypted bytes - it never sees plaintext. It
//! overwrites the remote blob (with an optional human-readable note, which
//! backends with a history keep), pulls it, and says whether it exists. What is
//! decided on the way stands here; the transport itself is the caller's.

pub mod git;
pub mod mock;
pub mod webdav;

pub use git::GitBackend;
pub use mock::MockBackend;
pub use webdav::WebDavBackend;
