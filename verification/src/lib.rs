//! Module-resolution and source-transformation pipeline for an embedded
//! JavaScript/TypeScript runtime.
//!
//! Given a module specifier (local path, relative import, or remote URL),
//! the library decides what content to fetch, whether that content needs
//! TypeScript-to-JavaScript transpilation, where to cache the result, and
//! how to hand the final source back to the host engine's module graph
//! builder. Filesystem and network work is performed by the host; the
//! decision logic here is verified.

pub mod cache;
pub mod classify;
pub mod coordinator;
pub mod laws;
pub mod loader;
pub mod resolve;
pub mod strutil;
pub mod transpile;
pub mod typescript;
pub mod workspace;
