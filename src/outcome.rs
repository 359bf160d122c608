//! How the relational store's raw answers become typed outcomes: a write that
//! the database refused on a constraint, or a query that found no row, is
//! turned into the matching `DbError`.
use vstd::prelude::*;
use crate::error::{DbError, Entry};
use crate::models::{Article, ProfilePic, User};

verus! {

/// The answer to an insert that returns the written row.
#[derive(Debug, Clone)]
pub enum Insert<T> {
    /// The row was written; here it is with its assigned identity.
    Written(T),
    /// The database refused the row on one of its constraints.
    Refused,
}

/// The outcome of inserting a user with `email`: a refusal can only come from
/// the uniqueness of emails, so it is `AlreadyExists` for that email.
pub fn user_insert_result(answer: Insert<User>, email: String) -> (r: Result<User, DbError>)
    ensures
        r == match answer {
            Insert::Written(u) => Ok::<User, DbError>(u),
            Insert::Refused => Err(DbError::AlreadyExists(Entry::UserWithEmail(email))),
        },
{
    match answer {
        Insert::Written(u) => Ok(u),
        Insert::Refused => Err(DbError::AlreadyExists(Entry::UserWithEmail(email))),
    }
}

/// The outcome of looking up the user `id`: `DoesNotExist` where no row came back.
pub fn user_query_result(row: Option<User>, id: i64) -> (r: Result<User, DbError>)
    ensures
        r == match row {
            Some(u) => Ok::<User, DbError>(u),
            None => Err(DbError::DoesNotExist(Entry::UserWithId(id))),
        },
{
    match row {
        Some(u) => Ok(u),
        None => Err(DbError::DoesNotExist(Entry::UserWithId(id))),
    }
}

/// The outcome of reading the picture column of user `id`: no row means the
/// user is missing, a null column means the picture is.
pub fn picture_query_result(row: Option<Option<Vec<u8>>>, id: i64) -> (r: Result<ProfilePic, DbError>)
    ensures
        match row {
            None => r == Err::<ProfilePic, DbError>(DbError::DoesNotExist(Entry::UserWithId(id))),
            Some(None) => r == Err::<ProfilePic, DbError>(
                DbError::DoesNotExist(Entry::ProfilePicOfUser(id)),
            ),
            Some(Some(data)) => r == Ok::<ProfilePic, DbError>(ProfilePic { data }),
        },
{
    match row {
        None => Err(DbError::DoesNotExist(Entry::UserWithId(id))),
        Some(None) => Err(DbError::DoesNotExist(Entry::ProfilePicOfUser(id))),
        Some(Some(data)) => Ok(ProfilePic::from(data)),
    }
}

/// The outcome of inserting an article by `author`: a refusal can only come
/// from the reference to the author, so it is `DoesNotExist` for that user.
pub fn article_insert_result(answer: Insert<Article>, author: i64) -> (r: Result<Article, DbError>)
    ensures
        r == match answer {
            Insert::Written(a) => Ok::<Article, DbError>(a),
            Insert::Refused => Err(DbError::DoesNotExist(Entry::UserWithId(author))),
        },
{
    match answer {
        Insert::Written(a) => Ok(a),
        Insert::Refused => Err(DbError::DoesNotExist(Entry::UserWithId(author))),
    }
}

} // verus!
