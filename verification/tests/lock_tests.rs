//! Turn-lock behavior: acquisition, fairness, expiration, release.

use fiction::error::FictError;
use fiction::model::{AccessLevel, Database, Story, StoryAccess, User};
use fiction::snippets::post;
use fiction::stories::{acquire_lock, revoke_lock};

fn seeded() -> (Database, User) {
    let mut db = Database::new();
    let owner = User::find_or_create(&mut db, "alice@example.org".to_string(), "alice".to_string())
        .expect("create owner");
    post(&mut db, None, &owner, "Once upon a time".to_string(), 100).expect("begin story");
    (db, owner)
}

fn grant_writer(db: &mut Database, story_id: i64, user: &User) {
    let story = Story::with_id(db, story_id).expect("story exists");
    StoryAccess::grant(&mut db.access, &story, user, &AccessLevel::Writer).expect("grant writer");
}

#[test]
fn scenario_turn_alternation() {
    let (mut db, u1) = seeded();
    let story = Story::with_id(&db, 1).expect("story exists");
    assert_eq!(story.contribution_count, 0);
    assert!(story.lock_user_id.is_none());

    // U1 acquires: revision still 0, cooldown baseline recorded at 0.
    let (locked, prior) = acquire_lock(&mut db, 1, &u1, 1_000).expect("first acquire");
    assert_eq!(locked.contribution_count, 0);
    assert_eq!(locked.lock_user_id, u1.id);
    assert_eq!(prior.content, "Once upon a time");

    // U1 contributes: revision becomes 1, lock released.
    post(&mut db, Some(1), &u1, "and then".to_string(), 1_100).expect("first contribution");
    let after = Story::with_id(&db, 1).expect("story exists");
    assert_eq!(after.contribution_count, 1);
    assert!(after.lock_user_id.is_none());

    // U1 immediately re-attempts: denied, attempt(0) + 1 == revision(1).
    let denied = acquire_lock(&mut db, 1, &u1, 1_200);
    assert!(matches!(denied, Err(FictError::Cooldown)));

    // U2, granted Writer, acquires and contributes: revision becomes 2.
    let u2 = User::find_or_create(&mut db, "bob@example.org".to_string(), "bob".to_string())
        .expect("create u2");
    grant_writer(&mut db, 1, &u2);
    let (locked2, _) = acquire_lock(&mut db, 1, &u2, 1_300).expect("u2 acquires");
    assert_eq!(locked2.lock_user_id, u2.id);
    post(&mut db, Some(1), &u2, "something else".to_string(), 1_400).expect("u2 contributes");
    assert_eq!(Story::with_id(&db, 1).expect("story").contribution_count, 2);

    // U1 re-attempts: succeeds, attempt(0) + 2 <= revision(2).
    let (relocked, latest) = acquire_lock(&mut db, 1, &u1, 1_500).expect("u1 re-acquires");
    assert_eq!(relocked.lock_user_id, u1.id);
    assert_eq!(latest.content, "something else");
}

#[test]
fn competing_valid_lock_is_reported() {
    let (mut db, u1) = seeded();
    let u2 = User::find_or_create(&mut db, "bob@example.org".to_string(), "bob".to_string())
        .expect("create u2");
    grant_writer(&mut db, 1, &u2);

    acquire_lock(&mut db, 1, &u1, 1_000).expect("u1 acquires");
    let denied = acquire_lock(&mut db, 1, &u2, 1_010);
    match denied {
        Err(FictError::AlreadyLocked { username, expiration }) => {
            assert_eq!(username, "alice");
            assert_eq!(expiration, 1_000 + 21_600);
        },
        other => panic!("expected AlreadyLocked, got {:?}", other),
    }
    // The failed attempt changed nothing: U1 still holds the lock.
    let story = Story::with_id(&db, 1).expect("story");
    assert_eq!(story.lock_user_id, u1.id);
}

#[test]
fn expired_lock_is_reacquirable() {
    let (mut db, u1) = seeded();
    let u2 = User::find_or_create(&mut db, "bob@example.org".to_string(), "bob".to_string())
        .expect("create u2");
    grant_writer(&mut db, 1, &u2);

    acquire_lock(&mut db, 1, &u1, 1_000).expect("u1 acquires");
    // Expiration is 22_600; well past it, U2's attempt succeeds even
    // though U1 is still named as holder.
    let before = Story::with_id(&db, 1).expect("story");
    assert_eq!(before.lock_user_id, u1.id);
    let (locked, _) = acquire_lock(&mut db, 1, &u2, 50_000).expect("u2 takes expired lock");
    assert_eq!(locked.lock_user_id, u2.id);
    assert_eq!(locked.lock_expiration, Some(50_000 + 21_600));
}

#[test]
fn reentrant_acquisition_extends_lock() {
    let (mut db, u1) = seeded();
    let (first, _) = acquire_lock(&mut db, 1, &u1, 1_000).expect("first acquire");
    assert_eq!(first.lock_expiration, Some(22_600));
    // Holding the lock, before contributing, U1 renews it: no Cooldown.
    let (second, _) = acquire_lock(&mut db, 1, &u1, 5_000).expect("renewal");
    assert_eq!(second.lock_user_id, u1.id);
    assert_eq!(second.lock_expiration, Some(5_000 + 21_600));
}

#[test]
fn release_by_non_holder_fails_and_mutates_nothing() {
    let (mut db, u1) = seeded();
    let u2 = User::find_or_create(&mut db, "bob@example.org".to_string(), "bob".to_string())
        .expect("create u2");
    grant_writer(&mut db, 1, &u2);
    acquire_lock(&mut db, 1, &u1, 1_000).expect("u1 acquires");

    // A stale copy claiming U2 as holder matches no row.
    let mut stale = Story::with_id(&db, 1).expect("story");
    stale.lock_user_id = u2.id;
    assert!(matches!(stale.unlock(&mut db), Err(FictError::ReleaseFailed)));
    let still = Story::with_id(&db, 1).expect("story");
    assert_eq!(still.lock_user_id, u1.id);
    assert_eq!(still.lock_expiration, Some(22_600));

    // After expiry the lock is taken by U2; U1's copy is stale now.
    let u1_copy = Story::with_id(&db, 1).expect("story");
    acquire_lock(&mut db, 1, &u2, 50_000).expect("u2 takes expired lock");
    assert!(matches!(u1_copy.unlock(&mut db), Err(FictError::ReleaseFailed)));
    assert_eq!(Story::with_id(&db, 1).expect("story").lock_user_id, u2.id);
}

#[test]
fn revoke_lock_clears_and_reports_unlocked_after() {
    let (mut db, u1) = seeded();
    acquire_lock(&mut db, 1, &u1, 1_000).expect("acquire");
    revoke_lock(&mut db, 1, &u1, 1_100).expect("revoke");
    let story = Story::with_id(&db, 1).expect("story");
    assert!(story.lock_user_id.is_none());
    assert!(story.lock_expiration.is_none());
    // Revoking a lock nobody holds is a pure status check on an
    // unlocked story.
    assert!(matches!(revoke_lock(&mut db, 1, &u1, 1_200), Err(FictError::Unlocked)));
}

#[test]
fn access_gating_hides_the_story() {
    let (mut db, _u1) = seeded();
    let stranger = User::find_or_create(&mut db, "eve@example.org".to_string(), "eve".to_string())
        .expect("create stranger");
    // No grant at all.
    assert!(matches!(acquire_lock(&mut db, 1, &stranger, 1_000), Err(FictError::NotFound)));
    // A Reader grant is still not enough to lock.
    let story = Story::with_id(&db, 1).expect("story");
    StoryAccess::grant(&mut db.access, &story, &stranger, &AccessLevel::Reader).expect("grant");
    assert!(matches!(acquire_lock(&mut db, 1, &stranger, 1_000), Err(FictError::NotFound)));
    // A story that does not exist reads the same.
    assert!(matches!(acquire_lock(&mut db, 99, &stranger, 1_000), Err(FictError::NotFound)));
}

#[test]
fn lock_fields_always_set_together() {
    let (mut db, u1) = seeded();
    let check = |db: &Database| {
        let s = Story::with_id(db, 1).expect("story");
        assert_eq!(s.lock_user_id.is_some(), s.lock_expiration.is_some());
    };
    check(&db);
    acquire_lock(&mut db, 1, &u1, 1_000).expect("acquire");
    check(&db);
    post(&mut db, Some(1), &u1, "more".to_string(), 1_100).expect("contribute");
    check(&db);
}

#[test]
fn status_check_on_unlocked_story() {
    let (mut db, u1) = seeded();
    // A pure check (no acquisition requested) on a story nobody holds.
    let r = Story::locked_for_write_at(&mut db, 1, &u1, false, 1_000);
    assert!(matches!(r, Err(FictError::Unlocked)));
}

#[test]
fn clock_backed_acquisition() {
    let (mut db, u1) = seeded();
    // The wall-clock entry point: a fresh story is unlocked and the
    // owner has no recorded attempt, so whatever instant is read, the
    // acquisition is granted.
    let story = Story::locked_for_write(&mut db, 1, &u1, true).expect("acquire against clock");
    assert_eq!(story.lock_user_id, u1.id);
    assert!(story.lock_expiration.is_some());
}
