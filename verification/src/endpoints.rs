pub mod events;
pub mod friends;
pub mod groups;
pub mod users;

use vstd::prelude::*;

verus! {

/// An error at the endpoint boundary. `InternalError` stands for a
/// persistence failure; `BadClientData` carries the message shown to the
/// client. Expected domain outcomes surface as `BadClientData` with a
/// distinct message each.
pub enum EndpointError {
    InternalError,
    BadClientData(&'static str),
}

impl EndpointError {
    /// The HTTP status code to answer with for each of these errors.
    pub fn status_code(&self) -> (r: u16)
        ensures
            *self is InternalError ==> r == 500,
            *self is BadClientData ==> r == 400,
    {
        match self {
            EndpointError::InternalError => 500,
            EndpointError::BadClientData(_) => 400,
        }
    }

    /// The message to show the client.
    pub fn message(&self) -> (r: &str)
        ensures
            *self is InternalError ==> r@ == "Internal error. Please try again later."@,
            *self matches EndpointError::BadClientData(m) ==> r@ == m@,
    {
        match self {
            EndpointError::InternalError => "Internal error. Please try again later.",
            EndpointError::BadClientData(m) => m,
        }
    }
}

} // verus!
