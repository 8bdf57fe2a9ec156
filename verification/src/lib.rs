//! Bookmark frequently used directories under named links and hop back to
//! them quickly.
//!
//! A bookmark is a symbolic link in a dedicated home directory: the link's
//! file name is the bookmark's name and the link's target is the directory
//! it stands for. The operations (list, tabulate, jump, mark, delete) are
//! written against abstract capabilities: resolving the bookmark home,
//! checking that a directory exists, managing symlinks, and talking to the
//! console. Every business rule lives here, verified; the OS-backed
//! capability providers live with the binary that embeds this crate.

pub mod algebra;
pub mod laws;
pub mod memory;
pub mod models;
pub mod paths;
pub mod program;
