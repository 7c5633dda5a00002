//! Account management against an Active-Directory-style directory: the rules
//! of the service, apart from the network. What goes over the wire is described
//! by plain values; the caller performs it and reports back.
//!
//! Everything that takes more than one exchange with the directory is a small
//! machine: checking the connection ([`session`]), creating an account
//! ([`provision`]), deleting one ([`removal`]). A machine starts by handing out
//! a [`directory::DirectoryRequest`]. The caller sends it, gives the
//! [`directory::DirectoryReply`] to `advance`, and gets the next request or the
//! outcome. One request is out at a time. The caller holds the connection, and
//! the lock on it, for as long as the machine runs.
//!
//! The functions of this file turn outcomes into the answers of the web
//! service.

use crate::entry::RawEntry;
use crate::provision::ProvisionError;
use crate::removal::DeleteError;
use crate::response::{ApiResponse, Status};
use crate::user::{decoded, UserAccount};
use vstd::prelude::*;
use vstd::string::StringExecFns;

pub use crate::session::ServerState;

pub mod codec;
pub mod directory;
pub mod entry;
pub mod provision;
pub mod removal;
pub mod response;
pub mod session;
pub mod user;

verus! {

/// The answer to a preflight request on the collection of users.
pub fn options_users() -> (response: ApiResponse<()>)
    ensures
        response.message() == "Options for /users"@,
        response.status() == Status::Success,
        response.data() is None,
{
    ApiResponse::new("Options for /users".to_owned(), Status::Success, None)
}

/// The answer to a preflight request on the user named `uname`.
pub fn options_users_delete(uname: &str) -> (response: ApiResponse<()>)
    ensures
        response.message() == "Options for /users"@,
        response.status() == Status::Success,
        response.data() is None,
{
    ApiResponse::new("Options for /users".to_owned(), Status::Success, None)
}

/// The answer to a request for all users: the records of the entries that
/// the search for users found, in their order.
pub fn get_all_users(entries: Vec<RawEntry>) -> (response: ApiResponse<Vec<UserAccount>>)
    ensures
        response.message() == "Success"@,
        response.status() == Status::Success,
        response.data() is Some,
        response.data()->0@.len() == entries@.len(),
        forall|i: int|
            0 <= i < entries@.len() ==> (#[trigger] response.data()->0@[i])@ == decoded(
                entries@[i].attrs@,
            ),
{
    let users = UserAccount::fetch_all_users(entries);
    ApiResponse::new("Success".to_owned(), Status::Success, Some(users))
}

/// The answer to a request to create a user, from how the creation ended:
/// the new record, or an error without payload.
pub fn create_user(outcome: Result<UserAccount, ProvisionError>) -> (response: ApiResponse<
    UserAccount,
>)
    ensures
        match outcome {
            Ok(user) => {
                &&& response.message() == "Created"@
                &&& response.status() == Status::Created
                &&& response.data() == Some(user)
            },
            Err(_) => {
                &&& response.message() == "Error Creating User"@
                &&& response.status() == Status::InternalServerError
                &&& response.data() is None
            },
        },
{
    match outcome {
        Ok(user) => ApiResponse::new("Created".to_owned(), Status::Created, Some(user)),
        Err(_) => ApiResponse::new(
            "Error Creating User".to_owned(),
            Status::InternalServerError,
            None,
        ),
    }
}

/// The answer to a request to delete a user, from how the deletion ended.
/// A name that no entry answers to is told apart from a delete that failed.
pub fn delete_user(outcome: Result<(), DeleteError>) -> (response: ApiResponse<()>)
    ensures
        response.data() is None,
        match outcome {
            Ok(_) => response.message() == "Deleted"@ && response.status() == Status::Success,
            Err(DeleteError::NotFound) => response.message() == "User Not Found"@
                && response.status() == Status::NotFound,
            Err(DeleteError::DeleteFailed) => response.message() == "Error Deleting User"@
                && response.status() == Status::InternalServerError,
        },
{
    match outcome {
        Ok(_) => ApiResponse::new("Deleted".to_owned(), Status::Success, None),
        Err(DeleteError::NotFound) => ApiResponse::new(
            "User Not Found".to_owned(),
            Status::NotFound,
            None,
        ),
        Err(DeleteError::DeleteFailed) => ApiResponse::new(
            "Error Deleting User".to_owned(),
            Status::InternalServerError,
            None,
        ),
    }
}

/// The answer to a request that could not go to the directory, because the
/// check of the connection gave up.
pub fn directory_unavailable<T>() -> (response: ApiResponse<T>)
    ensures
        response.message() == "Directory Unavailable"@,
        response.status() == Status::InternalServerError,
        response.data() is None,
{
    ApiResponse::new("Directory Unavailable".to_owned(), Status::InternalServerError, None)
}

/// The answer to a request for a path that the service does not have.
pub fn not_found(uri: &str) -> (response: ApiResponse<()>)
    ensures
        response.message() == uri@ + " Not Found"@,
        response.status() == Status::NotFound,
        response.data() is None,
{
    let mut message = uri.to_owned();
    message.append(" Not Found");
    ApiResponse::new(message, Status::NotFound, None)
}

/// The cross-origin policy of the service: every answer carries these headers.
pub struct CORS;

/// The headers of the cross-origin policy, name and value.
pub open spec fn cors_headers() -> Seq<(Seq<char>, Seq<char>)> {
    seq![
        ("Access-Control-Allow-Origin"@, "*"@),
        ("Access-Control-Allow-Methods"@, "POST, GET, PATCH, OPTIONS, DELETE"@),
        ("Access-Control-Allow-Headers"@, "*"@),
        ("Access-Control-Allow-Credentials"@, "true"@),
    ]
}

/// A list of headers as plain sequences.
pub open spec fn header_texts(headers: Seq<(String, String)>) -> Seq<(Seq<char>, Seq<char>)> {
    Seq::new(headers.len(), |i: int| (headers[i].0@, headers[i].1@))
}

impl CORS {
    /// The name under which the policy is registered.
    pub fn info(&self) -> (name: &'static str)
        ensures
            name@ == "Add CORS headers to responses"@,
    {
        "Add CORS headers to responses"
    }

    /// The headers to set on every answer.
    pub fn on_response(&self) -> (headers: Vec<(String, String)>)
        ensures
            header_texts(headers@) == cors_headers(),
    {
        let mut headers: Vec<(String, String)> = Vec::new();
        headers.push(("Access-Control-Allow-Origin".to_owned(), "*".to_owned()));
        headers.push(
            (
                "Access-Control-Allow-Methods".to_owned(),
                "POST, GET, PATCH, OPTIONS, DELETE".to_owned(),
            ),
        );
        headers.push(("Access-Control-Allow-Headers".to_owned(), "*".to_owned()));
        headers.push(("Access-Control-Allow-Credentials".to_owned(), "true".to_owned()));
        headers
    }
}

} // verus!
