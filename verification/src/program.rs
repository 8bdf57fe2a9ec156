//! Constructors for the error value that the operations return. An error
//! carries a message and, where one failure was brought on by others, the
//! causing errors in order.

use crate::models::HopError;
use vstd::prelude::*;
use vstd::string::StringExecFns;

verus! {

/// An error with a message and no recorded cause.
pub fn io_error(message: &str) -> (r: HopError)
    ensures
        r.message@ == message@,
        r.causes@ == Seq::<HopError>::empty(),
{
    let causes: Vec<HopError> = Vec::new();
    HopError { message: message.to_owned(), causes }
}

/// An error brought on by one earlier error, which is kept as its cause.
pub fn io_error_ex(message: &str, e: HopError) -> (r: HopError)
    ensures
        r.message@ == message@,
        r.causes@.len() == 1,
        r.causes@[0] == e,
{
    let mut causes: Vec<HopError> = Vec::new();
    causes.push(e);
    HopError { message: message.to_owned(), causes }
}

/// An error brought on by two earlier errors: the one hit just now and the
/// original one that led there. Both are kept, in that order.
pub fn io_error_ex_nested(message: &str, current_error: HopError, original_error: HopError) -> (r:
    HopError)
    ensures
        r.message@ == message@,
        r.causes@.len() == 2,
        r.causes@[0] == current_error,
        r.causes@[1] == original_error,
{
    let mut causes: Vec<HopError> = Vec::new();
    causes.push(current_error);
    causes.push(original_error);
    HopError { message: message.to_owned(), causes }
}

} // verus!
