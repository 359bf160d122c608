//! The store's error kinds and their translation to transport status codes.
use vstd::prelude::*;

verus! {

/// The entry that an error is about.
#[derive(Debug, Clone)]
pub enum Entry {
    /// The user holding this email.
    UserWithEmail(String),
    /// The user with this identity.
    UserWithId(i64),
    /// The profile picture of the user with this identity.
    ProfilePicOfUser(i64),
}

/// A typed outcome of the store: a conflict on a write, or a missing row.
#[derive(Debug, Clone)]
pub enum DbError {
    AlreadyExists(Entry),
    DoesNotExist(Entry),
}

/// The HTTP status for "not found".
pub const NOT_FOUND: u16 = 404;

/// The HTTP status for "conflict".
pub const CONFLICT: u16 = 409;

/// The HTTP status for "created".
pub const CREATED: u16 = 201;

/// The HTTP status for "ok".
pub const OK: u16 = 200;

impl DbError {
    /// The status code that the handlers answer with for this error.
    pub open spec fn spec_status_code(&self) -> u16 {
        match self {
            DbError::DoesNotExist(_) => NOT_FOUND,
            DbError::AlreadyExists(_) => CONFLICT,
        }
    }

    /// Maps the error kind to its transport status: a missing row is "not
    /// found", a uniqueness conflict is "conflict".
    pub fn status_code(&self) -> (r: u16)
        ensures
            r == self.spec_status_code(),
    {
        match self {
            DbError::DoesNotExist(_) => NOT_FOUND,
            DbError::AlreadyExists(_) => CONFLICT,
        }
    }
}

/// The status of a create handler: "created" with the new entity, else the
/// error's status.
pub fn create_status<T>(r: &Result<T, DbError>) -> (s: u16)
    ensures
        s == match r {
            Ok(_) => CREATED,
            Err(e) => e.spec_status_code(),
        },
{
    match r {
        Ok(_) => CREATED,
        Err(e) => e.status_code(),
    }
}

/// The status of a fetch handler: "ok" with the entity, else the error's status.
pub fn fetch_status<T>(r: &Result<T, DbError>) -> (s: u16)
    ensures
        s == match r {
            Ok(_) => OK,
            Err(e) => e.spec_status_code(),
        },
{
    match r {
        Ok(_) => OK,
        Err(e) => e.status_code(),
    }
}

} // verus!
