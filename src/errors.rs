use vstd::prelude::*;

verus! {

/// The text of the error returned when a code has no stored mapping.
pub const NOT_FOUND_MESSAGE: &'static str = "The url with this format was not found";

/// The text of the error returned when the submitted URL is empty or blank.
pub const EMPTY_URL_MESSAGE: &'static str = "Url is empty";

/// The text of the error returned when the submitted URL does not parse.
pub const INVALID_URL_MESSAGE: &'static str = "Invalid url";

/// The text shown to a caller for any infrastructure failure.
pub const INTERNAL_MESSAGE: &'static str = "Something went wrong";

/// Errors that the workflows surface to their callers.
#[derive(PartialEq, Eq, Debug, Clone, Copy)]
pub enum ApiError {
    NotFound(&'static str),
    BadRequest(&'static str),
    InternalServerError,
}

/// The failure of a call into the persistent store.
#[derive(PartialEq, Eq, Debug, Clone, Copy)]
pub struct DatabaseError;

/// The failure of a call into the cache.
#[derive(PartialEq, Eq, Debug, Clone, Copy)]
pub struct CacheError;

/// The failure of a call into the object store.
#[derive(PartialEq, Eq, Debug, Clone, Copy)]
pub struct S3Error;

impl ApiError {
    /// The text that a caller sees for this error.
    pub open spec fn message_spec(self) -> Seq<char> {
        match self {
            ApiError::NotFound(m) => m@,
            ApiError::BadRequest(m) => m@,
            ApiError::InternalServerError => INTERNAL_MESSAGE@,
        }
    }

    /// The HTTP status code that goes with this error.
    pub open spec fn status_spec(self) -> u16 {
        match self {
            ApiError::NotFound(_) => 404,
            ApiError::BadRequest(_) => 400,
            ApiError::InternalServerError => 500,
        }
    }

    /// The text that a caller sees: the reason for a client error, a fixed
    /// generic text for an internal one.
    pub fn message(&self) -> (r: &'static str)
        ensures
            r@ == self.message_spec(),
    {
        match *self {
            ApiError::NotFound(m) => m,
            ApiError::BadRequest(m) => m,
            ApiError::InternalServerError => INTERNAL_MESSAGE,
        }
    }

    /// The HTTP status code and the owned message for this error.
    pub fn get_message_status(&self) -> (r: (u16, String))
        ensures
            r.0 == self.status_spec(),
            r.1@ == self.message_spec(),
    {
        let m = self.message();
        let status: u16 = match *self {
            ApiError::NotFound(_) => 404,
            ApiError::BadRequest(_) => 400,
            ApiError::InternalServerError => 500,
        };
        (status, String::from_str(m))
    }
}

} // verus!
