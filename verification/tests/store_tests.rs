//! Users, sessions and snippets against the record store.

use fiction::auth::RequireUser;
use fiction::error::FictError;
use fiction::model::{Database, Session, Snippet, Story, User};
use fiction::snippets::post;

#[test]
fn find_or_create_reuses_the_email_row() {
    let mut db = Database::new();
    let first = User::find_or_create(&mut db, "alice@example.org".to_string(), "alice".to_string())
        .expect("create");
    assert_eq!(first.id, Some(1));
    // The same email finds the same user, whatever name is offered.
    let again = User::find_or_create(&mut db, "alice@example.org".to_string(), "other".to_string())
        .expect("find");
    assert_eq!(again.id, Some(1));
    assert_eq!(again.name, "alice");
    // A different email gets the next identifier.
    let second = User::find_or_create(&mut db, "bob@example.org".to_string(), "bob".to_string())
        .expect("create");
    assert_eq!(second.id, Some(2));
}

#[test]
fn user_save_updates_in_place() {
    let mut db = Database::new();
    let mut alice =
        User::find_or_create(&mut db, "alice@example.org".to_string(), "alice".to_string())
            .expect("create");
    alice.name = "alicia".to_string();
    alice.save(&mut db).expect("update");
    let read_back = User::with_id(&db, 1).expect("lookup");
    assert_eq!(read_back.name, "alicia");
    assert_eq!(read_back.email, "alice@example.org");
}

#[test]
fn user_save_refuses_taken_email() {
    let mut db = Database::new();
    User::find_or_create(&mut db, "alice@example.org".to_string(), "alice".to_string())
        .expect("create");
    let mut dup =
        User { id: None, name: "imposter".to_string(), email: "alice@example.org".to_string() };
    assert!(matches!(dup.save(&mut db), Err(FictError::Message(_))));
    assert_eq!(dup.id, None);
}

#[test]
fn missing_user_row_is_a_fault() {
    let db = Database::new();
    assert!(matches!(User::with_id(&db, 7), Err(FictError::Message(_))));
}

#[test]
fn session_assign_validate_and_user() {
    let mut db = Database::new();
    let alice = User::find_or_create(&mut db, "alice@example.org".to_string(), "alice".to_string())
        .expect("create");
    let session = Session::assign(&mut db, &alice, 424_242).expect("assign");
    assert_eq!(session.user_id, 1);

    let found = Session::validate(&db, 424_242).expect("token known");
    assert_eq!(found, session);
    assert!(Session::validate(&db, 424_243).is_none());
    assert_eq!(found.user(&db).expect("user").email, "alice@example.org");

    // A token can be handed out only once, as under a unique index.
    assert!(matches!(Session::assign(&mut db, &alice, 424_242), Err(FictError::Message(_))));
}

#[test]
fn authenticate_resolves_token_to_user() {
    let mut db = Database::new();
    let alice = User::find_or_create(&mut db, "alice@example.org".to_string(), "alice".to_string())
        .expect("create");
    Session::assign(&mut db, &alice, 99).expect("assign");

    let authed = RequireUser::authenticate(&db, Some(99)).expect("valid token");
    assert_eq!(authed.user.id, Some(1));
    assert!(matches!(RequireUser::authenticate(&db, Some(98)), Err(FictError::Message(_))));
    assert!(matches!(RequireUser::authenticate(&db, None), Err(FictError::Message(_))));
}

#[test]
fn most_recent_snippet_follows_contributions() {
    let mut db = Database::new();
    let alice = User::find_or_create(&mut db, "alice@example.org".to_string(), "alice".to_string())
        .expect("create");
    post(&mut db, None, &alice, "first words".to_string(), 100).expect("begin story");

    let story = Story::with_id(&db, 1).expect("story");
    let latest = Snippet::most_recent(&db, &story).expect("snippet");
    assert_eq!(latest.content, "first words");
    assert_eq!(latest.ordinal, 1);

    // Another contribution under the lock becomes the new latest.
    fiction::stories::acquire_lock(&mut db, 1, &alice, 1_000).expect("acquire");
    post(&mut db, Some(1), &alice, "second words".to_string(), 1_100).expect("contribute");
    let story = Story::with_id(&db, 1).expect("story");
    let latest = Snippet::most_recent(&db, &story).expect("snippet");
    assert_eq!(latest.content, "second words");
    assert_eq!(latest.ordinal, 2);
    assert_eq!(latest.user_id, 1);
}

#[test]
fn most_recent_on_empty_story_is_a_fault() {
    let mut db = Database::new();
    let alice = User::find_or_create(&mut db, "alice@example.org".to_string(), "alice".to_string())
        .expect("create");
    // A story begun directly (not through a snippet) has no rows yet.
    let story = Story::begin(&mut db, &alice, 100).expect("begin");
    assert!(matches!(Snippet::most_recent(&db, &story), Err(FictError::Message(_))));
}

#[test]
fn contribution_to_unknown_story_is_not_found() {
    let mut db = Database::new();
    let alice = User::find_or_create(&mut db, "alice@example.org".to_string(), "alice".to_string())
        .expect("create");
    let r = post(&mut db, Some(5), &alice, "words".to_string(), 100);
    assert!(matches!(r, Err(FictError::NotFound)));
}

#[test]
fn contribution_without_lock_is_refused() {
    let mut db = Database::new();
    let alice = User::find_or_create(&mut db, "alice@example.org".to_string(), "alice".to_string())
        .expect("create");
    post(&mut db, None, &alice, "first words".to_string(), 100).expect("begin story");
    // Nobody holds the story's lock, so a contribution is a status
    // check on an unlocked story.
    let r = post(&mut db, Some(1), &alice, "more".to_string(), 200);
    assert!(matches!(r, Err(FictError::Unlocked)));
}
