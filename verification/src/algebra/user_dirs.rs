//! The capability that locates the bookmark home directory, and the
//! rules a provider of it follows: where the home sits for each
//! configuration, and which error each way of failing carries.

use super::cap_view::CapView;
use crate::models::{HomeType, HopEffect, HopError};
use crate::paths::{join_path, join_spec};
use crate::program::{io_error, io_error_ex_nested};
use vstd::prelude::*;
use vstd::string::StringExecFns;

verus! {

pub trait UserDirs: CapView {
    /// Resolve the bookmark home to a directory path, creating it if it
    /// does not exist yet. Fails when the home cannot be determined or
    /// created, or exists but is not a directory.
    fn get_hop_home(&self, path: &HomeType) -> (r: HopEffect<String>)
        ensures
            r matches Ok(p) ==> p@ == self.hop_home(*path),
    ;
}

/// Where the bookmark home sits: a relative name under the user's home
/// directory, or exactly the absolute path that was configured.
pub open spec fn home_path_spec(home_type: HomeType, user_home: Seq<char>) -> Seq<char> {
    match home_type {
        HomeType::Relative(name) => join_spec(user_home, name@),
        HomeType::Absolute(path) => path@,
    }
}

/// Compute the path of the bookmark home from its configuration and the
/// user's home directory.
pub fn resolve_home_path(home_type: &HomeType, user_home: &String) -> (r: String)
    ensures
        r@ == home_path_spec(*home_type, user_home@),
{
    match home_type {
        HomeType::Relative(name) => join_path(user_home, name),
        HomeType::Absolute(path) => path.clone(),
    }
}

/// The error home resolution ends in when the resolved location exists
/// but is not a directory.
pub fn not_a_directory_error(hop_home: &String) -> (r: HopError)
    ensures
        r.message@ == hop_home@ + " is not a directory"@,
        r.causes@.len() == 0,
{
    let mut m = hop_home.clone();
    m.append(" is not a directory");
    io_error(m.as_str())
}

/// The error home resolution ends in when the location could not be
/// inspected and creating it failed too: it carries the creation failure
/// and the original inspection failure, in that order, so the reader
/// sees both why normal access failed and why the fallback did.
pub fn home_creation_error(hop_home: &String, create_error: HopError, inspect_error: HopError) -> (r:
    HopError)
    ensures
        r.message@ == "Could not create dir: "@ + hop_home@,
        r.causes@.len() == 2,
        r.causes@[0] == create_error,
        r.causes@[1] == inspect_error,
{
    let mut m = String::from_str("Could not create dir: ");
    m.append(hop_home.as_str());
    io_error_ex_nested(m.as_str(), create_error, inspect_error)
}

} // verus!
