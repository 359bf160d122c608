//! The records of the two tables and the creation variants that carry no identity.
use vstd::prelude::*;

verus! {

/// A persisted user, as the store hands it out (the picture is fetched apart).
#[derive(Debug, Clone)]
pub struct User {
    pub id: i64,
    pub username: String,
    pub email: String,
}

/// What a client supplies to create a user; the store assigns the identity.
#[derive(Debug, Clone)]
pub struct NewUser {
    pub username: String,
    pub email: String,
    pub profile_picture: Option<Vec<u8>>,
}

/// A persisted article; `author` is the identity of a user.
#[derive(Debug, Clone)]
pub struct Article {
    pub id: i64,
    pub title: String,
    pub text: String,
    pub author: i64,
}

/// What a client supplies to create an article; the store assigns the identity.
#[derive(Debug, Clone)]
pub struct NewArticle {
    pub title: String,
    pub text: String,
    pub author: i64,
}

/// The raw bytes of a user's profile picture.
#[derive(Debug, Clone)]
pub struct ProfilePic {
    pub data: Vec<u8>,
}

impl From<Vec<u8>> for ProfilePic {
    fn from(data: Vec<u8>) -> (r: ProfilePic) {
        ProfilePic { data }
    }
}

impl vstd::std_specs::convert::FromSpecImpl<Vec<u8>> for ProfilePic {
    open spec fn obeys_from_spec() -> bool {
        true
    }

    open spec fn from_spec(data: Vec<u8>) -> ProfilePic {
        ProfilePic { data }
    }
}

/// A field-by-field copy of a user.
pub(crate) fn copy_user(u: &User) -> (r: User)
    ensures
        r == *u,
{
    User { id: u.id, username: u.username.clone(), email: u.email.clone() }
}

/// A field-by-field copy of an article.
pub(crate) fn copy_article(a: &Article) -> (r: Article)
    ensures
        r == *a,
{
    Article { id: a.id, title: a.title.clone(), text: a.text.clone(), author: a.author }
}

/// A byte-by-byte copy of a byte vector.
pub(crate) fn copy_bytes(b: &Vec<u8>) -> (r: Vec<u8>)
    ensures
        r@ == b@,
{
    let mut r: Vec<u8> = Vec::new();
    let mut i: usize = 0;
    while i < b.len()
        invariant
            i <= b@.len(),
            r@ == b@.subrange(0, i as int),
        decreases b@.len() - i,
    {
        r.push(b[i]);
        i = i + 1;
        assert(r@ =~= b@.subrange(0, i as int));
    }
    assert(r@ =~= b@);
    r
}

} // verus!
