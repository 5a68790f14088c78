use vstd::prelude::*;

verus! {

/// The failure outcomes of the service's core operations.
///
/// `Unauthorized` covers both a login with an unknown email and a login with
/// a wrong password, so a caller cannot tell the two apart. `NotFound` is a
/// lookup that matched no user. `Storage` is any fault of the persistence
/// layer, including a uniqueness violation on registration.
#[derive(Clone, Copy, Debug, PartialEq, Eq, Structural)]
pub enum ServiceError {
    Unauthorized,
    NotFound,
    Storage,
}

impl ServiceError {
    /// The HTTP status code under which this error is surfaced.
    pub fn status_code(&self) -> (code: u16)
        ensures
            *self is Unauthorized ==> code == 401,
            *self is NotFound ==> code == 404,
            *self is Storage ==> code == 500,
    {
        match self {
            ServiceError::Unauthorized => 401,
            ServiceError::NotFound => 404,
            ServiceError::Storage => 500,
        }
    }

    /// A client-visible description; the storage message leaks no detail.
    pub fn message(&self) -> (msg: String)
        ensures
            *self is Unauthorized ==> msg@ == "Unauthorized"@,
            *self is NotFound ==> msg@ == "Not Found"@,
            *self is Storage ==> msg@ == "Internal Server Error"@,
    {
        match self {
            ServiceError::Unauthorized => "Unauthorized".to_owned(),
            ServiceError::NotFound => "Not Found".to_owned(),
            ServiceError::Storage => "Internal Server Error".to_owned(),
        }
    }
}

} // verus!
