use vstd::prelude::*;
use crate::task::{Task, TaskError};

verus! {

pub const OK: u16 = 200;
pub const CREATED: u16 = 201;
pub const NOT_FOUND: u16 = 404;
pub const INTERNAL_SERVER_ERROR: u16 = 500;

/// Listing: 200 with the rows, 500 when the store failed.
pub fn status_of_list(r: &Result<Vec<Task>, TaskError>) -> (s: u16)
    ensures
        s == (if r is Ok { OK } else { INTERNAL_SERVER_ERROR }),
{
    match r {
        Ok(_) => OK,
        Err(_) => INTERNAL_SERVER_ERROR,
    }
}

/// Creation: 201 with the new row, 500 when the insert failed.
pub fn status_of_create(r: &Result<Task, TaskError>) -> (s: u16)
    ensures
        s == (if r is Ok { CREATED } else { INTERNAL_SERVER_ERROR }),
{
    match r {
        Ok(_) => CREATED,
        Err(_) => INTERNAL_SERVER_ERROR,
    }
}

/// Reading one row: 200 when it exists, 404 when no row has the id, 500 when
/// the store failed.
pub fn status_of_get(r: &Result<Option<Task>, TaskError>) -> (s: u16)
    ensures
        s == match r {
            Ok(Some(_)) => OK,
            Ok(None) => NOT_FOUND,
            Err(_) => INTERNAL_SERVER_ERROR,
        },
{
    match r {
        Ok(Some(_)) => OK,
        Ok(None) => NOT_FOUND,
        Err(_) => INTERNAL_SERVER_ERROR,
    }
}

/// Updating: 200 only when the row was stored and announced. Every failure,
/// a missing row and a stored but unannounced row included, is a 500.
pub fn status_of_update(r: &Result<Task, TaskError>) -> (s: u16)
    ensures
        s == (if r is Ok { OK } else { INTERNAL_SERVER_ERROR }),
{
    match r {
        Ok(_) => OK,
        Err(_) => INTERNAL_SERVER_ERROR,
    }
}

} // verus!
