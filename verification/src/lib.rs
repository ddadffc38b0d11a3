//! Backend support for a desktop note-taking application: resolution of the
//! per-user `GLMY` home directory, bootstrap of its `config.json`, and
//! directory listings beneath it.
//!
//! Filesystem reads and writes are performed by the caller; the library
//! exposes each operation as a small decision machine whose every transition
//! is verified, together with the exact response texts it produces.

pub mod paths;
pub mod text;
pub mod responses;
pub mod outside;
pub mod resolver;
pub mod session;
pub mod memfs;
