//! Properties that relate several operations of the store, proved from the
//! operations' own contracts.
use vstd::prelude::*;
use crate::db::{written_by, Db};
use crate::error::{DbError, Entry};
use crate::models::{Article, NewArticle, NewUser, ProfilePic, User};

verus! {

/// Creating a user with an email that no user holds succeeds, and the
/// identity it returns is held by no user that existed before.
pub proof fn fresh_email_creates_new_identity(
    before: Db,
    new_user: NewUser,
    after: Db,
    r: Result<User, DbError>,
)
    requires
        before.wf(),
        before.user_rows().len() < i64::MAX,
        !before.email_taken(new_user.email@),
        before.creates_user(new_user, after, r),
    ensures
        r is Ok,
        forall|i: int|
            0 <= i < before.user_rows().len() ==> #[trigger] before.user_rows()[i].user.id
                != r->Ok_0.id,
        after.user_exists(r->Ok_0.id),
{
}

/// Once a user was created with an email, whether or not that creation
/// succeeded, a second creation with the same email fails with
/// `AlreadyExists` and adds no row.
pub proof fn second_user_with_same_email_conflicts(
    s0: Db,
    first: NewUser,
    s1: Db,
    r1: Result<User, DbError>,
    second: NewUser,
    s2: Db,
    r2: Result<User, DbError>,
)
    requires
        s0.wf(),
        s0.user_rows().len() < i64::MAX,
        s0.creates_user(first, s1, r1),
        s1.creates_user(second, s2, r2),
        second.email@ == first.email@,
    ensures
        r2 matches Err(DbError::AlreadyExists(_)),
        s2.user_rows() == s1.user_rows(),
        s2.article_rows() == s1.article_rows(),
{
    if !s0.email_taken(first.email@) {
        let last = s1.user_rows().len() - 1;
        assert(s1.user_rows()[last].user.email@ == first.email@);
    } else {
        let i = choose|i: int|
            0 <= i < s0.user_rows().len() && #[trigger] s0.user_rows()[i].user.email@
                == first.email@;
        assert(s1.user_rows()[i].user.email@ == first.email@);
    }
}

/// Fetching a user right after creating it returns the username and email
/// it was created with, under the identity that the creation returned.
pub proof fn get_after_create_user(
    before: Db,
    new_user: NewUser,
    after: Db,
    r: Result<User, DbError>,
)
    requires
        before.wf(),
        before.user_rows().len() < i64::MAX,
        before.creates_user(new_user, after, r),
        r is Ok,
    ensures
        after.user_lookup(r->Ok_0.id) == Ok::<User, DbError>(
            User { id: r->Ok_0.id, username: new_user.username, email: new_user.email },
        ),
{
}

/// Fetching an identity that no user holds gives `DoesNotExist`.
pub proof fn missing_user_does_not_exist(db: Db, id: i64)
    requires
        db.wf(),
        forall|i: int| 0 <= i < db.user_rows().len() ==> #[trigger] db.user_rows()[i].user.id != id,
    ensures
        db.user_lookup(id) == Err::<User, DbError>(DbError::DoesNotExist(Entry::UserWithId(id))),
{
    if db.user_exists(id) {
        assert(db.user_rows()[id - 1].user.id == id);
    }
}

/// Every article of one author is among all articles.
pub proof fn all_articles_include_each_author(db: Db, author_id: i64)
    ensures
        forall|k: int|
            0 <= k < db.articles_of(author_id).len() ==> db.article_rows().contains(
                #[trigger] db.articles_of(author_id)[k],
            ),
{
    assert forall|k: int| 0 <= k < db.articles_of(author_id).len() implies db.article_rows().contains(
        #[trigger] db.articles_of(author_id)[k],
    ) by {
        db.article_rows().lemma_filter_contains_rev(written_by(author_id), db.articles_of(author_id)[k]);
    }
}

/// The articles of an author who wrote none form the empty sequence.
pub proof fn author_without_articles_gets_empty(db: Db, author_id: i64)
    requires
        forall|i: int| 0 <= i < db.article_rows().len() ==> #[trigger] db.article_rows()[i].author != author_id,
    ensures
        db.articles_of(author_id) == Seq::<Article>::empty(),
{
    if db.articles_of(author_id).len() > 0 {
        db.article_rows().lemma_filter_pred(written_by(author_id), 0);
        db.article_rows().lemma_filter_contains_rev(written_by(author_id), db.articles_of(author_id)[0]);
    }
    assert(db.articles_of(author_id) =~= Seq::<Article>::empty());
}

/// Creating an article whose author does not exist fails and adds no row.
pub proof fn article_of_unknown_author_fails(
    before: Db,
    new_article: NewArticle,
    after: Db,
    r: Result<Article, DbError>,
)
    requires
        before.wf(),
        forall|i: int|
            0 <= i < before.user_rows().len() ==> #[trigger] before.user_rows()[i].user.id
                != new_article.author,
        before.creates_article(new_article, after, r),
    ensures
        r is Err,
        after.article_rows() == before.article_rows(),
        after.user_rows() == before.user_rows(),
{
    if before.user_exists(new_article.author) {
        assert(before.user_rows()[new_article.author - 1].user.id == new_article.author);
    }
}

/// Reading back a created user gives every field it was created with: its
/// username and email, and its profile picture or the lack of one.
pub proof fn user_round_trip(
    before: Db,
    new_user: NewUser,
    after: Db,
    r: Result<User, DbError>,
    pic: Result<ProfilePic, DbError>,
)
    requires
        before.wf(),
        before.user_rows().len() < i64::MAX,
        before.creates_user(new_user, after, r),
        r is Ok,
        after.picture_lookup(r->Ok_0.id, pic),
    ensures
        after.user_lookup(r->Ok_0.id) is Ok,
        after.user_lookup(r->Ok_0.id)->Ok_0.username == new_user.username,
        after.user_lookup(r->Ok_0.id)->Ok_0.email == new_user.email,
        match new_user.profile_picture {
            Some(p) => pic is Ok && pic->Ok_0.data@ == p@,
            None => pic == Err::<ProfilePic, DbError>(
                DbError::DoesNotExist(Entry::ProfilePicOfUser(r->Ok_0.id)),
            ),
        },
{
}

/// Reading back a created article, among its author's articles, gives every
/// field it was created with.
pub proof fn article_round_trip(
    before: Db,
    new_article: NewArticle,
    after: Db,
    r: Result<Article, DbError>,
)
    requires
        before.wf(),
        before.creates_article(new_article, after, r),
        r is Ok,
    ensures
        after.articles_of(new_article.author).contains(r->Ok_0),
        r->Ok_0.title == new_article.title,
        r->Ok_0.text == new_article.text,
        r->Ok_0.author == new_article.author,
{
    let last = after.article_rows().len() - 1;
    assert(after.article_rows()[last] == r->Ok_0);
    after.article_rows().lemma_filter_contains(written_by(new_article.author), last);
}

} // verus!
