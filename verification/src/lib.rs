//! The core of a small server for static files.
//!
//! A request names a path. The path is resolved against the served root,
//! with `index.html` for the empty path and `.html` and `.htm` as fallbacks,
//! and is served only where its canonical form lies within the canonical
//! root. What comes of it is a response: the file with its content type, or
//! the status and the wording of the failure.
//!
//! The library never touches the file system or the network. Where it needs
//! to know something of the file system it states a [`probe::Question`], and
//! it goes on once the caller hands it the [`probe::Answer`]. So each request
//! is a [`handler::Exchange`] that the caller drives to its reply, and the
//! start of the server is a [`startup::Startup`] driven in the same way.
//!
//! - [`path`]: paths as byte strings: joining, final names and extensions,
//!   components and containment.
//! - [`mime`]: the content type of a file by its extension.
//! - [`probe`]: questions, answers, and the file system as they describe it.
//! - [`resolver`]: from a request path to the file to serve.
//! - [`response`]: responses to a file and to a failure.
//! - [`handler`]: one request from its path to the reply.
//! - [`config`] and [`startup`]: the settings of a server and how they are
//!   established.

pub mod config;
pub mod handler;
pub mod mime;
pub mod path;
pub mod probe;
pub mod resolver;
pub mod response;
pub mod startup;
