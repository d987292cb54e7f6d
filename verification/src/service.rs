//! Classification of storage outcomes and the fixed response pieces.
//!
//! The service surfaces exactly two failures: "not found", when an update or
//! delete matched no row, and "internal", for any other storage-layer fault.
//! Everything here maps plain values (a success flag, an affected-row count,
//! an assigned id) to the values the handlers respond with.

use vstd::prelude::*;

use crate::todo::{CreateTodo, Todo};

verus! {

/// The two failures the service surfaces to a client.
#[derive(Clone, Copy, Debug, PartialEq, Eq, Structural)]
pub enum ServiceError {
    /// An update or delete matched no row.
    NotFound,
    /// Any other storage-layer fault.
    InternalError,
}

/// A success acknowledgment, as the update and delete responses carry it.
pub struct ResponseMessage {
    pub message: String,
}

/// Classifies the outcome of a write statement (update or delete):
/// a statement the store failed to execute is an internal error, one that
/// executed but matched no row is not-found, and any other is a success.
pub fn classify_write(succeeded: bool, rows_affected: u64) -> (r: Result<(), ServiceError>)
    ensures
        r == (if !succeeded {
            Err::<(), ServiceError>(ServiceError::InternalError)
        } else if rows_affected == 0 {
            Err::<(), ServiceError>(ServiceError::NotFound)
        } else {
            Ok::<(), ServiceError>(())
        }),
{
    if !succeeded {
        Err(ServiceError::InternalError)
    } else if rows_affected == 0 {
        Err(ServiceError::NotFound)
    } else {
        Ok(())
    }
}

/// The HTTP status code each surfaced error maps to: 404 for not-found,
/// 500 for an internal error.
pub fn http_status_of_error(e: ServiceError) -> (s: u16)
    ensures
        s == (if e == ServiceError::NotFound {
            404u16
        } else {
            500u16
        }),
{
    match e {
        ServiceError::NotFound => 404,
        ServiceError::InternalError => 500,
    }
}

/// The record a successful create responds with: the id the store assigned,
/// the description as submitted, and status false.
pub fn created_todo(id: i64, input: CreateTodo) -> (t: Todo)
    ensures
        t@.id == id as int,
        t@.description == input@,
        t@.status == false,
{
    Todo { id, description: input.description, status: false }
}

/// The acknowledgment a successful update responds with.
pub fn updated_message() -> (r: ResponseMessage)
    ensures
        r.message@ == "Task successfully updated!"@,
{
    ResponseMessage { message: "Task successfully updated!".to_owned() }
}

/// The acknowledgment a successful delete responds with.
pub fn deleted_message() -> (r: ResponseMessage)
    ensures
        r.message@ == "Task successfully deleted!"@,
{
    ResponseMessage { message: "Task successfully deleted!".to_owned() }
}

} // verus!
