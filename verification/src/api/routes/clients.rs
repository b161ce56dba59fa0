//! The client (host) endpoints: what each answers for what the store returned.

use vstd::prelude::*;
use crate::api::models::Client;
use crate::text::owned;

verus! {

broadcast use vstd::string::group_string_axioms;

/// The editable settings of a client.
#[derive(Debug, Clone)]
pub struct UpdateClientRequest {
    pub name: String,
    pub color: String,
    pub compose_file_path: Option<String>,
    pub agent_update_mode: String,
}

/// The body of an error answer.
#[derive(Debug, Clone)]
pub struct ApiError {
    pub error: String,
}

/// HTTP 204 No Content.
pub const NO_CONTENT: u16 = 204;

/// HTTP 404 Not Found.
pub const NOT_FOUND: u16 = 404;

/// HTTP 500 Internal Server Error.
pub const INTERNAL_SERVER_ERROR: u16 = 500;

/// A store failure, answered with 500 and the failure's text.
pub fn internal_error(message: String) -> (r: (u16, ApiError))
    ensures
        r.0 == 500 && r.1.error == message,
{
    (INTERNAL_SERVER_ERROR, ApiError { error: message })
}

/// The text of the answer to a request for a client that does not exist.
pub open spec fn client_not_found_text(id: Seq<char>) -> Seq<char> {
    "Client "@ + id + " not found"@
}

/// The answer to a lookup of client `id`: the client, 404 when there is none,
/// 500 when the store failed.
pub open spec fn spec_client_answer(found: Result<Option<Client>, String>, id: Seq<char>, r: Result<Client, (u16, ApiError)>) -> bool {
    match found {
        Ok(Some(c)) => r == Ok::<Client, (u16, ApiError)>(c),
        Ok(None) => r matches Err((status, body)) && status == 404 && body.error@
            == client_not_found_text(id),
        Err(e) => r matches Err((status, body)) && status == 500 && body.error == e,
    }
}

/// Answers a lookup of client `id` (`GET /api/clients/:id`, and the read-back
/// of `PUT /api/clients/:id`).
pub fn client_answer(found: Result<Option<Client>, String>, id: &str) -> (r: Result<Client, (u16, ApiError)>)
    ensures
        spec_client_answer(found, id@, r),
{
    match found {
        Ok(Some(c)) => Ok(c),
        Ok(None) => {
            let mut text = owned("Client ");
            text.append(id);
            text.append(" not found");
            Err((NOT_FOUND, ApiError { error: text }))
        },
        Err(e) => Err(internal_error(e)),
    }
}

/// Answers the listing of all clients (`GET /api/clients`).
pub fn list_answer(found: Result<Vec<Client>, String>) -> (r: Result<Vec<Client>, (u16, ApiError)>)
    ensures
        match found {
            Ok(v) => r == Ok::<Vec<Client>, (u16, ApiError)>(v),
            Err(e) => r matches Err((status, body)) && status == 500 && body.error == e,
        },
{
    match found {
        Ok(v) => Ok(v),
        Err(e) => Err(internal_error(e)),
    }
}

/// Answers a write (update or delete): nothing further when it succeeded,
/// 500 with the failure otherwise.
pub fn write_answer(done: Result<(), String>) -> (r: Result<(), (u16, ApiError)>)
    ensures
        match done {
            Ok(()) => r is Ok,
            Err(e) => r matches Err((status, body)) && status == 500 && body.error == e,
        },
{
    match done {
        Ok(()) => Ok(()),
        Err(e) => Err(internal_error(e)),
    }
}

/// Answers `DELETE /api/clients/:id`: 204 when the delete succeeded.
pub fn delete_answer(done: Result<(), String>) -> (r: Result<u16, (u16, ApiError)>)
    ensures
        match done {
            Ok(()) => r == Ok::<u16, (u16, ApiError)>(204),
            Err(e) => r matches Err((status, body)) && status == 500 && body.error == e,
        },
{
    match done {
        Ok(()) => Ok(NO_CONTENT),
        Err(e) => Err(internal_error(e)),
    }
}

} // verus!
