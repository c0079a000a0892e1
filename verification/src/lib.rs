//! Resolution of plugin source references into runnable plugin instances.
//!
//! A plugin is identified by a source reference (a local path or a remote
//! URL) whose execution kind — an in-process sandboxed module or an
//! out-of-process native executable — is a pure function of the locator
//! text.  Resolving a reference goes through a cache of materialized
//! artifacts; the resolution orchestrator validates what the cache hands
//! back against the file store, invalidates and repopulates a stale entry
//! exactly once, and then constructs the backend-specific plugin instance.

pub mod cache;
pub mod environment;
pub mod errors;
pub mod info;
pub mod kinds;
pub mod laws;
pub mod plugins;
pub mod table;
pub mod text;
