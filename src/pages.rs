//! The decisions of the request handlers, on plain values: which query a
//! request needs, what a page shows, and how the add-user form goes on.
use vstd::prelude::*;
use crate::error::DbError;
use crate::models::{Article, NewUser, User};

verus! {

/// The identity that a path or query parameter names: the parameter read as
/// a two's-complement 64-bit integer, so that those above the largest
/// identity become negative values, which no row holds.
pub open spec fn identity_of(id: u64) -> i64 {
    if id <= i64::MAX {
        id as i64
    } else {
        (id - 0x1_0000_0000_0000_0000int) as i64
    }
}

/// Computes `identity_of`.
pub fn identity(id: u64) -> (r: i64)
    ensures
        r == identity_of(id),
{
    if id <= i64::MAX as u64 {
        id as i64
    } else {
        let r: i64 = (id - 1 - i64::MAX as u64) as i64 - i64::MAX - 1;
        r
    }
}

/// Which articles a listing asks for.
#[derive(Debug, Clone, Copy, PartialEq, Eq)]
pub enum ArticlesQuery {
    All,
    ByAuthor(i64),
}

/// The listing of the API: every article without a filter, else the articles
/// of the author named by the filter.
pub fn articles_query(author_id: Option<u64>) -> (r: ArticlesQuery)
    ensures
        r == match author_id {
            None => ArticlesQuery::All,
            Some(id) => ArticlesQuery::ByAuthor(identity_of(id)),
        },
{
    match author_id {
        None => ArticlesQuery::All,
        Some(id) => ArticlesQuery::ByAuthor(identity(id)),
    }
}

/// Whose articles the articles page shows.
#[derive(Debug, Clone)]
pub enum PageAuthor {
    /// No filter: the articles of everybody.
    Everybody,
    /// The articles of this user.
    Author(User),
    /// The filter names no existing user: the placeholder "no such author".
    NoSuchAuthor,
}

/// What the articles page shows: whose articles they are, and the articles.
#[derive(Debug, Clone)]
pub struct ArticlesPage {
    pub author: PageAuthor,
    pub articles: Vec<Article>,
}

/// What the articles page has learned so far.
#[derive(Debug)]
pub enum ArticlesEvent {
    /// A request came, with its optional author filter.
    Requested(Option<u64>),
    /// All articles came back.
    AllArticles(Vec<Article>),
    /// The lookup of the filtering author came back.
    Author(Result<User, DbError>),
    /// The articles of this author came back.
    ArticlesOf(User, Vec<Article>),
}

/// What the articles page does next.
#[derive(Debug, Clone)]
pub enum ArticlesStep {
    /// Fetch every article.
    FetchAll,
    /// Look up the user with this identity.
    FetchAuthor(i64),
    /// Fetch the articles of this user.
    FetchArticlesOf(User),
    /// Render this page.
    Render(ArticlesPage),
}

/// The step that follows an event. Without a filter the page lists every
/// article; with one it looks the author up first, and shows the placeholder
/// "no such author", with no articles, where the author does not exist; else it shows
/// the author with the author's articles.
pub fn articles_step(event: ArticlesEvent) -> (r: ArticlesStep)
    ensures
        match event {
            ArticlesEvent::Requested(None) => r is FetchAll,
            ArticlesEvent::Requested(Some(id)) => r == ArticlesStep::FetchAuthor(identity_of(id)),
            ArticlesEvent::AllArticles(articles) => r == ArticlesStep::Render(
                ArticlesPage { author: PageAuthor::Everybody, articles },
            ),
            ArticlesEvent::Author(Err(_)) => r is Render && r->Render_0.author is NoSuchAuthor
                && r->Render_0.articles@.len() == 0,
            ArticlesEvent::Author(Ok(u)) => r == ArticlesStep::FetchArticlesOf(u),
            ArticlesEvent::ArticlesOf(u, articles) => r == ArticlesStep::Render(
                ArticlesPage { author: PageAuthor::Author(u), articles },
            ),
        },
{
    match event {
        ArticlesEvent::Requested(None) => ArticlesStep::FetchAll,
        ArticlesEvent::Requested(Some(id)) => ArticlesStep::FetchAuthor(identity(id)),
        ArticlesEvent::AllArticles(articles) => ArticlesStep::Render(
            ArticlesPage { author: PageAuthor::Everybody, articles },
        ),
        ArticlesEvent::Author(Err(_)) => ArticlesStep::Render(
            ArticlesPage { author: PageAuthor::NoSuchAuthor, articles: Vec::new() },
        ),
        ArticlesEvent::Author(Ok(u)) => ArticlesStep::FetchArticlesOf(u),
        ArticlesEvent::ArticlesOf(u, articles) => ArticlesStep::Render(
            ArticlesPage { author: PageAuthor::Author(u), articles },
        ),
    }
}

/// Whether users are in increasing order of identity.
pub open spec fn sorted_by_id(users: Seq<User>) -> bool {
    forall|i: int, j: int| 0 <= i < j < users.len() ==> users[i].id <= users[j].id
}

/// Relies on `slice::sort_by_key`, keyed by the identity: a stable sort, so
/// the result is a permutation of the input in increasing order of identity.
#[verifier::external_body]
fn sort_by_id(users: &mut Vec<User>)
    ensures
        final(users)@.to_multiset() == old(users)@.to_multiset(),
        sorted_by_id(final(users)@),
{
    users.sort_by_key(|u| u.id);
}

/// The users page lists the users in increasing order of identity.
pub fn users_page(users: Vec<User>) -> (r: Vec<User>)
    ensures
        r@.to_multiset() == users@.to_multiset(),
        sorted_by_id(r@),
{
    let mut users = users;
    sort_by_id(&mut users);
    users
}

/// The field of the add-user form that a multipart part fills, by its name.
#[derive(Debug, Clone, Copy, PartialEq, Eq)]
pub enum FormField {
    Email,
    Username,
    ProfilePicture,
    Ignored,
}

/// Which form field a part of this name fills: "email", "username" and
/// "profile_picture" are read, any other part is ignored.
pub fn form_field(name: &String) -> (r: FormField)
    ensures
        r == (if name@ == "email"@ {
            FormField::Email
        } else if name@ == "username"@ {
            FormField::Username
        } else if name@ == "profile_picture"@ {
            FormField::ProfilePicture
        } else {
            FormField::Ignored
        }),
{
    if *name == "email".to_owned() {
        FormField::Email
    } else if *name == "username".to_owned() {
        FormField::Username
    } else if *name == "profile_picture".to_owned() {
        FormField::ProfilePicture
    } else {
        FormField::Ignored
    }
}

/// The values of the add-user form received so far.
#[derive(Debug, Clone)]
pub struct FormValues {
    pub email: Option<String>,
    pub username: Option<String>,
    pub profile_picture: Option<Vec<u8>>,
}

/// Why the add-user form is shown again.
#[derive(Debug, Clone, Copy, PartialEq, Eq)]
pub enum FormMessage {
    /// The email or the username was not sent.
    MissingFields,
    /// The store refused the user.
    AddFailed,
}

impl FormMessage {
    /// The text of the message.
    pub open spec fn spec_text(self) -> Seq<char> {
        match self {
            FormMessage::MissingFields => "Email and username are required"@,
            FormMessage::AddFailed => "Failed to add user"@,
        }
    }

    /// The text that the form shows.
    pub fn text(&self) -> (r: String)
        ensures
            r@ == self.spec_text(),
    {
        match self {
            FormMessage::MissingFields => "Email and username are required".to_owned(),
            FormMessage::AddFailed => "Failed to add user".to_owned(),
        }
    }
}

impl FormValues {
    /// No value received yet.
    pub fn new() -> (r: FormValues)
        ensures
            r.email is None,
            r.username is None,
            r.profile_picture is None,
    {
        FormValues { email: None, username: None, profile_picture: None }
    }

    /// The user to create from the form: email and username are required,
    /// the picture is optional.
    pub fn new_user(self) -> (r: Result<NewUser, FormMessage>)
        ensures
            match (self.email, self.username) {
                (Some(email), Some(username)) => r == Ok::<NewUser, FormMessage>(
                    NewUser { username, email, profile_picture: self.profile_picture },
                ),
                _ => r == Err::<NewUser, FormMessage>(FormMessage::MissingFields),
            },
    {
        match (self.email, self.username) {
            (Some(email), Some(username)) => Ok(
                NewUser { username, email, profile_picture: self.profile_picture },
            ),
            _ => Err(FormMessage::MissingFields),
        }
    }
}

/// What the add-user form answers once the store answered: a redirect to the
/// users page on success, the form again with a message on failure.
pub fn add_user_reply(result: &Result<User, DbError>) -> (r: Option<FormMessage>)
    ensures
        r == (if result is Ok {
            None
        } else {
            Some(FormMessage::AddFailed)
        }),
{
    match result {
        Ok(_) => None,
        Err(_) => Some(FormMessage::AddFailed),
    }
}

} // verus!
