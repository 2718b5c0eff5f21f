//! The verified core of a SQLite VFS shim.
//!
//! SQLite asks a VFS for its work through C callbacks. This crate holds what
//! those callbacks decide: how raw arguments are checked and converted, which
//! method of the [`vfs::Vfs`] trait is called with what, and what status code
//! and output values go back to SQLite. Pointers are gone from its signatures:
//! one that may be null is an `Option`, one that is written through is a
//! mutable reference. The crate that talks C turns pointers into these and
//! performs the calls into SQLite.

pub mod api;
pub mod base;
pub mod control;
pub mod defaults;
pub mod files;
pub mod flags;
pub mod paths;
pub mod register;
pub mod shm;
pub mod text;
pub mod vars;
pub mod vfs;
