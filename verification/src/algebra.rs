//! The abstract capabilities the program is written against: resolving the
//! bookmark home, checking directories, managing symlinks, and talking to
//! the console. Each is a contract with no implementation here; providers
//! are substituted from outside (an OS-backed one in the binary, an
//! in-memory one for tests).

pub mod cap_view;
pub mod directories;
pub mod dirs;
pub mod hop;
pub mod std_io;
pub mod symlinks;
pub mod user_dirs;
