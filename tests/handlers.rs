use blog_backend::error::{create_status, fetch_status, DbError, Entry};
use blog_backend::models::{Article, ProfilePic, User};
use blog_backend::outcome::{
    article_insert_result, picture_query_result, user_insert_result, user_query_result, Insert,
};
use blog_backend::pages::{
    add_user_reply, articles_query, articles_step, form_field, identity, users_page,
    ArticlesEvent, ArticlesQuery, ArticlesStep, FormField, FormMessage, FormValues, PageAuthor,
};

fn user(id: i64, name: &str) -> User {
    User { id, username: name.to_string(), email: format!("{}@x.com", name) }
}

fn article(id: i64, author: i64) -> Article {
    Article { id, title: format!("t{}", id), text: "body".to_string(), author }
}

#[test]
fn error_kinds_map_to_statuses() {
    assert_eq!(DbError::DoesNotExist(Entry::UserWithId(1)).status_code(), 404);
    assert_eq!(DbError::DoesNotExist(Entry::ProfilePicOfUser(1)).status_code(), 404);
    assert_eq!(DbError::AlreadyExists(Entry::UserWithEmail("a".to_string())).status_code(), 409);
}

#[test]
fn handler_statuses() {
    let ok: Result<User, DbError> = Ok(user(1, "a"));
    let conflict: Result<User, DbError> =
        Err(DbError::AlreadyExists(Entry::UserWithEmail("a@x.com".to_string())));
    let missing: Result<User, DbError> = Err(DbError::DoesNotExist(Entry::UserWithId(3)));
    assert_eq!(create_status(&ok), 201);
    assert_eq!(create_status(&conflict), 409);
    assert_eq!(create_status(&missing), 404);
    assert_eq!(fetch_status(&ok), 200);
    assert_eq!(fetch_status(&missing), 404);
}

#[test]
fn refused_user_insert_is_conflict() {
    let r = user_insert_result(Insert::Refused, "a@x.com".to_string());
    match r {
        Err(DbError::AlreadyExists(Entry::UserWithEmail(e))) => assert_eq!(e, "a@x.com"),
        other => panic!("unexpected {:?}", other),
    }
    let w = user_insert_result(Insert::Written(user(4, "d")), "d@x.com".to_string()).unwrap();
    assert_eq!(w.id, 4);
}

#[test]
fn user_query_without_row_does_not_exist() {
    assert!(matches!(user_query_result(None, 8), Err(DbError::DoesNotExist(Entry::UserWithId(8)))));
    assert_eq!(user_query_result(Some(user(8, "h")), 8).unwrap().username, "h");
}

#[test]
fn picture_query_outcomes() {
    assert!(matches!(picture_query_result(None, 2), Err(DbError::DoesNotExist(Entry::UserWithId(2)))));
    assert!(matches!(
        picture_query_result(Some(None), 2),
        Err(DbError::DoesNotExist(Entry::ProfilePicOfUser(2)))
    ));
    assert_eq!(picture_query_result(Some(Some(vec![9, 8])), 2).unwrap().data, vec![9, 8]);
}

#[test]
fn refused_article_insert_names_author() {
    assert!(matches!(
        article_insert_result(Insert::Refused, 999),
        Err(DbError::DoesNotExist(Entry::UserWithId(999)))
    ));
    assert_eq!(article_insert_result(Insert::Written(article(1, 1)), 1).unwrap().id, 1);
}

#[test]
fn profile_pic_from_bytes() {
    let p = ProfilePic::from(vec![1, 2]);
    assert_eq!(p.data, vec![1, 2]);
}

#[test]
fn identity_wraps_large_parameters() {
    assert_eq!(identity(0), 0);
    assert_eq!(identity(42), 42);
    assert_eq!(identity(i64::MAX as u64), i64::MAX);
    assert_eq!(identity(u64::MAX), -1);
    assert_eq!(identity(1u64 << 63), i64::MIN);
}

#[test]
fn api_listing_query() {
    assert_eq!(articles_query(None), ArticlesQuery::All);
    assert_eq!(articles_query(Some(3)), ArticlesQuery::ByAuthor(3));
}

#[test]
fn articles_page_without_filter() {
    assert!(matches!(articles_step(ArticlesEvent::Requested(None)), ArticlesStep::FetchAll));
    match articles_step(ArticlesEvent::AllArticles(vec![article(1, 1), article(2, 2)])) {
        ArticlesStep::Render(page) => {
            assert!(matches!(page.author, PageAuthor::Everybody));
            assert_eq!(page.articles.len(), 2);
        }
        other => panic!("unexpected {:?}", other),
    }
}

#[test]
fn articles_page_with_known_author() {
    assert!(matches!(articles_step(ArticlesEvent::Requested(Some(2))), ArticlesStep::FetchAuthor(2)));
    let next = articles_step(ArticlesEvent::Author(Ok(user(2, "b"))));
    let ArticlesStep::FetchArticlesOf(author) = next else { panic!("unexpected {:?}", next) };
    assert_eq!(author.id, 2);
    match articles_step(ArticlesEvent::ArticlesOf(author, vec![article(5, 2)])) {
        ArticlesStep::Render(page) => {
            let PageAuthor::Author(a) = page.author else { panic!("no author") };
            assert_eq!(a.username, "b");
            assert_eq!(page.articles[0].id, 5);
        }
        other => panic!("unexpected {:?}", other),
    }
}

#[test]
fn articles_page_with_unknown_author() {
    let r = articles_step(ArticlesEvent::Author(Err(DbError::DoesNotExist(Entry::UserWithId(9)))));
    match r {
        ArticlesStep::Render(page) => {
            assert!(matches!(page.author, PageAuthor::NoSuchAuthor));
            assert!(page.articles.is_empty());
        }
        other => panic!("unexpected {:?}", other),
    }
}

#[test]
fn users_page_sorts_by_identity() {
    let sorted = users_page(vec![user(3, "c"), user(1, "a"), user(2, "b")]);
    let ids: Vec<i64> = sorted.iter().map(|u| u.id).collect();
    assert_eq!(ids, vec![1, 2, 3]);
    assert_eq!(sorted[0].username, "a");
    assert!(users_page(Vec::new()).is_empty());
}

#[test]
fn form_fields_by_name() {
    assert_eq!(form_field(&"email".to_string()), FormField::Email);
    assert_eq!(form_field(&"username".to_string()), FormField::Username);
    assert_eq!(form_field(&"profile_picture".to_string()), FormField::ProfilePicture);
    assert_eq!(form_field(&"other".to_string()), FormField::Ignored);
}

#[test]
fn form_requires_email_and_username() {
    let mut v = FormValues::new();
    v.email = Some("a@x.com".to_string());
    assert!(matches!(v.clone().new_user(), Err(FormMessage::MissingFields)));
    v.username = Some("a".to_string());
    let nu = v.new_user().unwrap();
    assert_eq!(nu.username, "a");
    assert_eq!(nu.email, "a@x.com");
    assert!(nu.profile_picture.is_none());
}

#[test]
fn form_reply_after_store() {
    let ok: Result<User, DbError> = Ok(user(1, "a"));
    let err: Result<User, DbError> =
        Err(DbError::AlreadyExists(Entry::UserWithEmail("a@x.com".to_string())));
    assert_eq!(add_user_reply(&ok), None);
    assert_eq!(add_user_reply(&err), Some(FormMessage::AddFailed));
    assert_eq!(FormMessage::AddFailed.text(), "Failed to add user");
    assert_eq!(FormMessage::MissingFields.text(), "Email and username are required");
}
