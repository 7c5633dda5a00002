//! The envelope in which every answer of the service travels: a message, the
//! status as a number, and the payload if there is one.

use vstd::prelude::*;

verus! {

/// The HTTP statuses that the service answers with.
#[derive(Clone, Copy, Debug, PartialEq, Eq, Structural)]
pub enum Status {
    Success,
    Created,
    NotFound,
    InternalServerError,
}

impl Status {
    /// The status as its HTTP number.
    pub open spec fn spec_code(self) -> u16 {
        match self {
            Status::Success => 200,
            Status::Created => 201,
            Status::NotFound => 404,
            Status::InternalServerError => 500,
        }
    }

    /// The status as its HTTP number.
    #[verifier::when_used_as_spec(spec_code)]
    pub fn code(self) -> (code: u16)
        ensures
            code == self.spec_code(),
    {
        match self {
            Status::Success => 200,
            Status::Created => 201,
            Status::NotFound => 404,
            Status::InternalServerError => 500,
        }
    }
}

/// The body of an answer, as it is written out.
pub struct ApiResponseInner<T> {
    pub message: String,
    pub status: u16,
    pub data: Option<T>,
}

/// An answer: its body and the HTTP status it is sent with. The number in
/// the body is always that of the status.
pub struct ApiResponse<T> {
    inner: ApiResponseInner<T>,
    status: Status,
}

impl<T> ApiResponse<T> {
    #[verifier::type_invariant]
    spec fn body_carries_status(self) -> bool {
        self.inner.status == self.status.spec_code()
    }

    /// The message of the answer.
    pub closed spec fn message(&self) -> Seq<char> {
        self.inner.message@
    }

    /// The HTTP status of the answer.
    pub closed spec fn spec_status(&self) -> Status {
        self.status
    }

    /// The payload of the answer.
    pub closed spec fn data(&self) -> Option<T> {
        self.inner.data
    }

    /// An answer with the given message, status and payload.
    pub fn new(message: String, status: Status, data: Option<T>) -> (response: Self)
        ensures
            response.message() == message@,
            response.status() == status,
            response.data() == data,
    {
        ApiResponse { inner: ApiResponseInner { message, status: status.code(), data }, status }
    }

    /// The HTTP status to send the answer with.
    #[verifier::when_used_as_spec(spec_status)]
    pub fn status(&self) -> (status: Status)
        ensures
            status == self.spec_status(),
    {
        self.status
    }

    /// Takes the answer apart into its body and its status. The number in
    /// the body is that of the status.
    pub fn into_parts(self) -> (parts: (ApiResponseInner<T>, Status))
        ensures
            parts.0.message@ == self.message(),
            parts.0.status == self.status().code(),
            parts.0.data == self.data(),
            parts.1 == self.status(),
    {
        proof {
            use_type_invariant(&self);
        }
        (self.inner, self.status)
    }
}

} // verus!
