//! A store of the two tables with the constraints of the relational schema:
//! identities are assigned 1, 2, 3, ... in order of creation, emails are unique
//! among users, and an article's author is the identity of an existing user.
use vstd::prelude::*;
use crate::error::{DbError, Entry};
use crate::models::{copy_article, copy_bytes, copy_user, Article, NewArticle, NewUser, ProfilePic, User};

verus! {

/// A row of the users table: the user and its optional profile picture.
#[derive(Debug, Clone)]
pub struct UserRow {
    pub user: User,
    pub profile_picture: Option<Vec<u8>>,
}

/// The two tables; row `i` of each holds the identity `i + 1`.
#[derive(Debug, Clone)]
pub struct Db {
    users: Vec<UserRow>,
    articles: Vec<Article>,
}

/// Whether an article was written by the given author.
pub open spec fn written_by(author_id: i64) -> spec_fn(Article) -> bool {
    |a: Article| a.author == author_id
}

impl Db {
    /// The rows of the users table, in order of identity.
    pub closed spec fn user_rows(&self) -> Seq<UserRow> {
        self.users@
    }

    /// The rows of the articles table, in order of identity.
    pub closed spec fn article_rows(&self) -> Seq<Article> {
        self.articles@
    }

    /// The store's invariant: identities follow the row order, emails are
    /// unique, and every article's author exists.
    pub open spec fn wf(&self) -> bool {
        &&& self.user_rows().len() <= i64::MAX
        &&& self.article_rows().len() <= i64::MAX
        &&& forall|i: int|
            0 <= i < self.user_rows().len() ==> #[trigger] self.user_rows()[i].user.id == i + 1
        &&& forall|i: int, j: int|
            0 <= i < j < self.user_rows().len() ==> #[trigger] self.user_rows()[i].user.email@
                != #[trigger] self.user_rows()[j].user.email@
        &&& forall|i: int|
            0 <= i < self.article_rows().len() ==> #[trigger] self.article_rows()[i].id == i + 1
        &&& forall|i: int|
            0 <= i < self.article_rows().len() ==> self.user_exists(
                #[trigger] self.article_rows()[i].author,
            )
    }

    /// Whether a user with this identity exists.
    pub open spec fn user_exists(&self, id: i64) -> bool {
        1 <= id <= self.user_rows().len()
    }

    /// The row of the user with this identity (meaningful where it exists).
    pub open spec fn user_row(&self, id: i64) -> UserRow {
        self.user_rows()[id - 1]
    }

    /// Whether some user already holds this email.
    pub open spec fn email_taken(&self, email: Seq<char>) -> bool {
        exists|i: int| 0 <= i < self.user_rows().len() && #[trigger] self.user_rows()[i].user.email@ == email
    }

    /// The users of the table, without their pictures.
    pub open spec fn users_view(&self) -> Seq<User> {
        self.user_rows().map_values(|r: UserRow| r.user)
    }

    /// The user that a successful creation returns.
    pub open spec fn next_user(&self, new_user: NewUser) -> User {
        User {
            id: (self.user_rows().len() + 1) as i64,
            username: new_user.username,
            email: new_user.email,
        }
    }

    /// The article that a successful creation returns.
    pub open spec fn next_article(&self, new_article: NewArticle) -> Article {
        Article {
            id: (self.article_rows().len() + 1) as i64,
            title: new_article.title,
            text: new_article.text,
            author: new_article.author,
        }
    }

    /// What creating `new_user` returns and leaves behind: a conflict, and no
    /// change, where the email is taken; else the new row, with the next identity.
    pub open spec fn creates_user(
        &self,
        new_user: NewUser,
        after: Db,
        r: Result<User, DbError>,
    ) -> bool {
        if self.email_taken(new_user.email@) {
            &&& r == Err::<User, DbError>(DbError::AlreadyExists(Entry::UserWithEmail(new_user.email)))
            &&& after.user_rows() == self.user_rows()
            &&& after.article_rows() == self.article_rows()
        } else {
            &&& r == Ok::<User, DbError>(self.next_user(new_user))
            &&& after.user_rows().len() == self.user_rows().len() + 1
            &&& after.user_rows().drop_last() == self.user_rows()
            &&& after.user_rows().last().user == self.next_user(new_user)
            &&& after.user_rows().last().profile_picture.is_some()
                == new_user.profile_picture.is_some()
            &&& new_user.profile_picture.is_some() ==> after.user_rows().last().profile_picture.unwrap()@
                == new_user.profile_picture.unwrap()@
            &&& after.article_rows() == self.article_rows()
        }
    }

    /// What fetching the user with this identity returns.
    pub open spec fn user_lookup(&self, id: i64) -> Result<User, DbError> {
        if self.user_exists(id) {
            Ok(self.user_row(id).user)
        } else {
            Err(DbError::DoesNotExist(Entry::UserWithId(id)))
        }
    }

    /// What fetching the profile picture of this identity returns: the
    /// stored bytes, or which of the two entries is missing.
    pub open spec fn picture_lookup(&self, id: i64, r: Result<ProfilePic, DbError>) -> bool {
        if !self.user_exists(id) {
            r == Err::<ProfilePic, DbError>(DbError::DoesNotExist(Entry::UserWithId(id)))
        } else if self.user_row(id).profile_picture.is_none() {
            r == Err::<ProfilePic, DbError>(DbError::DoesNotExist(Entry::ProfilePicOfUser(id)))
        } else {
            r is Ok && r->Ok_0.data@ == self.user_row(id).profile_picture.unwrap()@
        }
    }

    /// The articles of one author, in order of identity.
    pub open spec fn articles_of(&self, author_id: i64) -> Seq<Article> {
        self.article_rows().filter(written_by(author_id))
    }

    /// What creating `new_article` returns and leaves behind: "does not exist"
    /// for an unknown author, and no change; else the new row, with the next identity.
    pub open spec fn creates_article(
        &self,
        new_article: NewArticle,
        after: Db,
        r: Result<Article, DbError>,
    ) -> bool {
        if !self.user_exists(new_article.author) {
            &&& r == Err::<Article, DbError>(
                DbError::DoesNotExist(Entry::UserWithId(new_article.author)),
            )
            &&& after.user_rows() == self.user_rows()
            &&& after.article_rows() == self.article_rows()
        } else {
            &&& r == Ok::<Article, DbError>(self.next_article(new_article))
            &&& after.user_rows() == self.user_rows()
            &&& after.article_rows() == self.article_rows().push(self.next_article(new_article))
        }
    }

    /// An empty store.
    pub fn new() -> (r: Db)
        ensures
            r.wf(),
            r.user_rows().len() == 0,
            r.article_rows().len() == 0,
    {
        Db { users: Vec::new(), articles: Vec::new() }
    }

    /// All users, in order of identity.
    pub fn all_users(&self) -> (r: Vec<User>)
        ensures
            r@ == self.users_view(),
    {
        let mut r: Vec<User> = Vec::new();
        let mut i: usize = 0;
        while i < self.users.len()
            invariant
                i <= self.users@.len(),
                r@ == self.users@.subrange(0, i as int).map_values(|u: UserRow| u.user),
            decreases self.users@.len() - i,
        {
            r.push(copy_user(&self.users[i].user));
            i = i + 1;
            assert(r@ =~= self.users@.subrange(0, i as int).map_values(|u: UserRow| u.user));
        }
        assert(self.users@.subrange(0, i as int) =~= self.users@);
        r
    }
    /// Whether some user already holds this email.
    fn has_email(&self, email: &String) -> (r: bool)
        ensures
            r == self.email_taken(email@),
    {
        let mut i: usize = 0;
        while i < self.users.len()
            invariant
                i <= self.users@.len(),
                forall|k: int| 0 <= k < i ==> #[trigger] self.users@[k].user.email@ != email@,
            decreases self.users@.len() - i,
        {
            if self.users[i].user.email == *email {
                assert(self.user_rows()[i as int].user.email@ == email@);
                return true;
            }
            i = i + 1;
        }
        assert(forall|k: int| 0 <= k < self.user_rows().len() ==> #[trigger] self.user_rows()[k].user.email@ != email@);
        false
    }

    /// Inserts a user. Fails with `AlreadyExists`, and changes nothing, where
    /// the email is already taken; else returns the user with its new identity.
    pub fn add_user(&mut self, new_user: NewUser) -> (r: Result<User, DbError>)
        requires
            old(self).wf(),
            old(self).user_rows().len() < i64::MAX,
        ensures
            final(self).wf(),
            old(self).creates_user(new_user, *final(self), r),
    {
        if self.has_email(&new_user.email) {
            return Err(DbError::AlreadyExists(Entry::UserWithEmail(new_user.email)));
        }
        let id: i64 = self.users.len() as i64 + 1;
        let user = User { id, username: new_user.username, email: new_user.email };
        let returned = copy_user(&user);
        let picture = match new_user.profile_picture {
            Some(p) => Some(copy_bytes(&p)),
            None => None,
        };
        self.users.push(UserRow { user, profile_picture: picture });
        assert(self.user_rows().drop_last() =~= old(self).user_rows());
        assert(forall|i: int| 0 <= i < old(self).user_rows().len() ==> self.user_rows()[i] == old(self).user_rows()[i]);
        Ok(returned)
    }

    /// The user with this identity, or `DoesNotExist` where there is none.
    pub fn get_user(&self, id: i64) -> (r: Result<User, DbError>)
        requires
            self.wf(),
        ensures
            r == self.user_lookup(id),
    {
        if 1 <= id && id <= self.users.len() as i64 {
            Ok(copy_user(&self.users[(id - 1) as usize].user))
        } else {
            Err(DbError::DoesNotExist(Entry::UserWithId(id)))
        }
    }

    /// The profile picture of the user with this identity; `DoesNotExist`
    /// names the user where it is missing, and its picture where it has none.
    pub fn get_profile_pic(&self, id: i64) -> (r: Result<ProfilePic, DbError>)
        requires
            self.wf(),
        ensures
            self.picture_lookup(id, r),
    {
        if 1 <= id && id <= self.users.len() as i64 {
            match &self.users[(id - 1) as usize].profile_picture {
                Some(data) => Ok(ProfilePic { data: copy_bytes(data) }),
                None => Err(DbError::DoesNotExist(Entry::ProfilePicOfUser(id))),
            }
        } else {
            Err(DbError::DoesNotExist(Entry::UserWithId(id)))
        }
    }

    /// All articles, in order of identity.
    pub fn all_articles(&self) -> (r: Vec<Article>)
        ensures
            r@ == self.article_rows(),
    {
        let mut r: Vec<Article> = Vec::new();
        let mut i: usize = 0;
        while i < self.articles.len()
            invariant
                i <= self.articles@.len(),
                r@ == self.articles@.subrange(0, i as int),
            decreases self.articles@.len() - i,
        {
            r.push(copy_article(&self.articles[i]));
            i = i + 1;
            assert(r@ =~= self.articles@.subrange(0, i as int));
        }
        assert(self.articles@.subrange(0, i as int) =~= self.articles@);
        r
    }

    /// The articles whose author is `author_id`, in order of identity; empty
    /// where there are none.
    pub fn articles_by_author(&self, author_id: i64) -> (r: Vec<Article>)
        ensures
            r@ == self.articles_of(author_id),
    {
        let mut r: Vec<Article> = Vec::new();
        let mut i: usize = 0;
        while i < self.articles.len()
            invariant
                i <= self.articles@.len(),
                r@ == self.articles@.subrange(0, i as int).filter(written_by(author_id)),
            decreases self.articles@.len() - i,
        {
            let ghost before = self.articles@.subrange(0, i as int);
            if self.articles[i].author == author_id {
                r.push(copy_article(&self.articles[i]));
            }
            i = i + 1;
            proof {
                let now = self.articles@.subrange(0, i as int);
                assert(now.drop_last() =~= before);
                reveal(Seq::filter);
                assert(r@ =~= now.filter(written_by(author_id)));
            }
        }
        assert(self.articles@.subrange(0, i as int) =~= self.articles@);
        r
    }

    /// Inserts an article. Fails with `DoesNotExist`, and changes nothing,
    /// where its author does not exist; else returns it with its new identity.
    pub fn add_article(&mut self, new_article: NewArticle) -> (r: Result<Article, DbError>)
        requires
            old(self).wf(),
            old(self).article_rows().len() < i64::MAX,
        ensures
            final(self).wf(),
            old(self).creates_article(new_article, *final(self), r),
    {
        if !(1 <= new_article.author && new_article.author <= self.users.len() as i64) {
            return Err(DbError::DoesNotExist(Entry::UserWithId(new_article.author)));
        }
        let id: i64 = self.articles.len() as i64 + 1;
        let article = Article {
            id,
            title: new_article.title,
            text: new_article.text,
            author: new_article.author,
        };
        let returned = copy_article(&article);
        self.articles.push(article);
        assert(forall|i: int| 0 <= i < old(self).article_rows().len() ==> self.article_rows()[i] == old(self).article_rows()[i]);
        Ok(returned)
    }
}

} // verus!
