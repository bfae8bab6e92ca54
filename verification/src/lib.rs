//! Stamp cards for volunteers.
//!
//! Each volunteer is described by a TOML file and a picture on disk. This
//! library finds the description files of a directory, reads each into a
//! validated record, checks that its picture is there, shapes the roster
//! into the input of a Typst template, and has the template compiled into a
//! PDF.
//!
//! The file system, the TOML parser and the typesetting engine are not part
//! of what is proved. Every call into them stands behind a small function
//! whose contract says what is taken for granted; the decisions that follow
//! each call are verified for every answer that the call can give.

pub mod compiler;
pub mod config;
pub mod document;
pub mod error;
pub mod loader;
pub mod paths;
pub mod schema;
pub mod template;
pub mod text;
pub mod values;
pub mod volunteers;
