//! Access levels, their encoding, and the grant table.

use fiction::error::FictError;
use fiction::model::{AccessLevel, Database, Story, StoryAccess, User};
use fiction::snippets::post;

fn seeded() -> (Database, User) {
    let mut db = Database::new();
    let owner = User::find_or_create(&mut db, "alice@example.org".to_string(), "alice".to_string())
        .expect("create owner");
    post(&mut db, None, &owner, "Once upon a time".to_string(), 100).expect("begin story");
    (db, owner)
}

#[test]
fn encode_values() {
    assert_eq!(AccessLevel::NoAccess.encode(), 0);
    assert_eq!(AccessLevel::Reader.encode(), 1);
    assert_eq!(AccessLevel::Writer.encode(), 2);
    assert_eq!(AccessLevel::Owner.encode(), 3);
}

#[test]
fn decode_round_trip() {
    assert_eq!(AccessLevel::decode(0).expect("decode"), AccessLevel::NoAccess);
    assert_eq!(AccessLevel::decode(1).expect("decode"), AccessLevel::Reader);
    assert_eq!(AccessLevel::decode(2).expect("decode"), AccessLevel::Writer);
    assert_eq!(AccessLevel::decode(3).expect("decode"), AccessLevel::Owner);
    assert!(matches!(AccessLevel::decode(4), Err(FictError::Message(_))));
    assert!(matches!(AccessLevel::decode(-1), Err(FictError::Message(_))));
}

#[test]
fn grants_matrix() {
    assert!(!AccessLevel::NoAccess.grants_read());
    assert!(!AccessLevel::NoAccess.grants_write());
    assert!(!AccessLevel::NoAccess.grants_admin());
    assert!(AccessLevel::Reader.grants_read());
    assert!(!AccessLevel::Reader.grants_write());
    assert!(!AccessLevel::Reader.grants_admin());
    assert!(AccessLevel::Writer.grants_read());
    assert!(AccessLevel::Writer.grants_write());
    assert!(!AccessLevel::Writer.grants_admin());
    assert!(AccessLevel::Owner.grants_read());
    assert!(AccessLevel::Owner.grants_write());
    assert!(AccessLevel::Owner.grants_admin());
}

#[test]
fn upgrade_to_read_never_lowers() {
    assert_eq!(AccessLevel::NoAccess.upgrade_to_read(), AccessLevel::Reader);
    assert_eq!(AccessLevel::Reader.upgrade_to_read(), AccessLevel::Reader);
    assert_eq!(AccessLevel::Writer.upgrade_to_read(), AccessLevel::Writer);
    assert_eq!(AccessLevel::Owner.upgrade_to_read(), AccessLevel::Owner);
}

#[test]
fn creator_is_granted_owner() {
    let (db, owner) = seeded();
    let story = Story::with_id(&db, 1).expect("story");
    assert_eq!(story.access_for(&db, &owner), AccessLevel::Owner);
}

#[test]
fn grant_upsert_and_revoke() {
    let (mut db, _owner) = seeded();
    let bob = User::find_or_create(&mut db, "bob@example.org".to_string(), "bob".to_string())
        .expect("create bob");
    let story = Story::with_id(&db, 1).expect("story");

    // Absent row reads as NoAccess.
    assert_eq!(story.access_for(&db, &bob), AccessLevel::NoAccess);

    // Insert, then update in place.
    StoryAccess::grant(&mut db.access, &story, &bob, &AccessLevel::Reader).expect("grant");
    assert_eq!(story.access_for(&db, &bob), AccessLevel::Reader);
    StoryAccess::grant(&mut db.access, &story, &bob, &AccessLevel::Writer).expect("grant");
    assert_eq!(story.access_for(&db, &bob), AccessLevel::Writer);
    // Re-granting the same level is idempotent.
    StoryAccess::grant(&mut db.access, &story, &bob, &AccessLevel::Writer).expect("grant");
    assert_eq!(story.access_for(&db, &bob), AccessLevel::Writer);

    // NoAccess deletes the row rather than storing a sentinel, so the
    // pair reads exactly as if never granted.
    StoryAccess::grant(&mut db.access, &story, &bob, &AccessLevel::NoAccess).expect("revoke");
    assert_eq!(story.access_for(&db, &bob), AccessLevel::NoAccess);
    // Revoking again still succeeds (idempotent delete).
    StoryAccess::grant(&mut db.access, &story, &bob, &AccessLevel::NoAccess).expect("revoke");
    assert_eq!(story.access_for(&db, &bob), AccessLevel::NoAccess);
}

#[test]
fn world_readable_upgrade_preserves_higher_grants() {
    let (mut db, owner) = seeded();
    let bob = User::find_or_create(&mut db, "bob@example.org".to_string(), "bob".to_string())
        .expect("create bob");
    let mut story = Story::with_id(&db, 1).expect("story");
    StoryAccess::grant(&mut db.access, &story, &bob, &AccessLevel::Writer).expect("grant");

    story.published = true;
    story.world_readable = true;
    story.save(&mut db).expect("save");
    let published = Story::with_id(&db, 1).expect("story");

    // A stranger is raised to Reader; Writer and Owner are preserved.
    let eve = User::find_or_create(&mut db, "eve@example.org".to_string(), "eve".to_string())
        .expect("create eve");
    assert_eq!(published.access_for(&db, &eve), AccessLevel::Reader);
    assert_eq!(published.access_for(&db, &bob), AccessLevel::Writer);
    assert_eq!(published.access_for(&db, &owner), AccessLevel::Owner);
}

#[test]
fn unpersisted_user_has_no_access() {
    let (db, _owner) = seeded();
    let ghost_user = User { id: None, name: "nobody".to_string(), email: "n@example.org".to_string() };
    let story = Story::with_id(&db, 1).expect("story");
    assert_eq!(story.access_for(&db, &ghost_user), AccessLevel::NoAccess);
}
