//! The guarantees the turn-lock protocol gives, proved from the
//! operations' contracts: lock-field consistency, mutual exclusion,
//! turn alternation, re-entrant renewal, expiration precedence, and the
//! access gate.

use vstd::prelude::*;
use crate::model::{
    AccessLevel, AcquireOutcome, Database, Story, User, acquire_outcome, acquire_rel,
    cooldown_permits, story_access_for,
};
use crate::snippets::{contributed_story, post_contributed_rel};
use crate::stories::acquire_lock_granted_rel;

verus! {

/// In a well-formed store, every story's lock holder and lock
/// expiration are set together or cleared together. Since every
/// operation of the store requires and re-establishes well-formedness,
/// this holds at all times.
pub proof fn lemma_lock_fields_consistent(db: Database, id: i64)
    requires
        db.wf(),
    ensures
        match db.spec_story(id) {
            Some(s) => s.lock_consistent(),
            None => true,
        },
{
    if db.has_story(id) {
        let i = db.story_index(id);
        assert(0 <= i < db.stories@.len() && db.stories@[i].id == id);
        assert(db.stories@[i].lock_consistent());
    }
}

/// A story names at most one lock holder at any instant.
pub proof fn lemma_single_holder(s: Story, u: i64, v: i64)
    requires
        s.locked_by(u),
        s.locked_by(v),
    ensures
        u == v,
{
}

/// While some other user holds an unexpired lock, an acquisition
/// attempt is never granted (nor mistaken for a cooldown or an unlocked
/// story): exclusivity holds for every applicant, whatever they ask for.
pub proof fn lemma_exclusive_lock(
    db: Database,
    id: i64,
    applicant: User,
    acquire: bool,
    now: i64,
    s: Story,
)
    requires
        db.wf(),
        db.spec_story(id) == Some(s),
        s.locked_by_other(applicant.id->0),
        s.expiration_valid(now),
    ensures
        !(acquire_outcome(db, id, applicant, acquire, now) is Granted),
        !(acquire_outcome(db, id, applicant, acquire, now) is Cooldown),
        !(acquire_outcome(db, id, applicant, acquire, now) is Unlocked),
{
}

/// A writer contending against a valid foreign lock is told exactly who
/// holds it and until when.
pub proof fn lemma_competing_lock_reported(
    db: Database,
    id: i64,
    applicant: User,
    acquire: bool,
    now: i64,
    s: Story,
    holder: User,
)
    requires
        db.wf(),
        db.spec_story(id) == Some(s),
        s.locked_by_other(applicant.id->0),
        s.expiration_valid(now),
        story_access_for(db, s, applicant).spec_grants_write(),
        db.spec_user(s.lock_user_id->0) == Some(holder),
    ensures
        acquire_outcome(db, id, applicant, acquire, now) == (AcquireOutcome::AlreadyLocked {
            username: holder.name,
            expiration: s.lock_expiration->0,
        }),
{
}

/// Once one acquisition is granted, no different user can be granted
/// the same story's lock before that lock's expiration: of any number
/// of contenders in one window, at most the first succeeds.
pub proof fn lemma_no_double_grant(
    pre: Database,
    post: Database,
    r: crate::error::FictResult<Story>,
    id: i64,
    first: User,
    second: User,
    story: Story,
    acquire: bool,
    now: i64,
    later: i64,
)
    requires
        pre.wf(),
        acquire_rel(pre, post, r, id, first, true, now),
        acquire_outcome(pre, id, first, true, now) == (AcquireOutcome::Granted { story }),
        second.id != first.id,
        later <= story.lock_expiration->0,
    ensures
        !(acquire_outcome(post, id, second, acquire, later) is Granted),
{
    assert(post.spec_story(id) == Some(story));
    assert(first.id is Some);
    assert(story.lock_user_id == Some(first.id->0));
}

/// Turn alternation, denied half: a user whose recorded acquisition
/// baseline sits exactly one revision behind the story's count (their
/// own contribution produced the only new revision) is denied with
/// `Cooldown`, however long they wait.
pub proof fn lemma_cooldown_blocks_consecutive(
    db: Database,
    id: i64,
    applicant: User,
    now: i64,
    s: Story,
    att: i32,
)
    requires
        db.wf(),
        db.spec_story(id) == Some(s),
        story_access_for(db, s, applicant).spec_grants_write(),
        !(s.locked_by_other(applicant.id->0) && s.expiration_valid(now)),
        db.attempts.spec_attempt_for(id, applicant.id) == Some(att),
        att + 1 == s.contribution_count,
    ensures
        acquire_outcome(db, id, applicant, true, now) == AcquireOutcome::Cooldown,
{
}

/// Turn alternation, permitted half: once at least one other user has
/// contributed since the applicant's recorded baseline (the count moved
/// two or more past it), the fairness rule permits the acquisition, and
/// with no competing valid lock it is granted.
pub proof fn lemma_intervening_contribution_unblocks(
    db: Database,
    id: i64,
    applicant: User,
    now: i64,
    s: Story,
    att: i32,
)
    requires
        db.wf(),
        db.spec_story(id) == Some(s),
        applicant.id is Some,
        story_access_for(db, s, applicant).spec_grants_write(),
        !(s.locked_by_other(applicant.id->0) && s.expiration_valid(now)),
        db.attempts.spec_attempt_for(id, applicant.id) == Some(att),
        att + 2 <= s.contribution_count,
        i64::MIN <= now + s.lock_duration_s <= i64::MAX,
    ensures
        acquire_outcome(db, id, applicant, true, now) == (AcquireOutcome::Granted {
            story: s.with_lock(applicant.id->0, (now + s.lock_duration_s) as i64),
        }),
{
}

/// Turn alternation, composed: a user acquires a story's lock (baseline
/// recorded at revision R), contributes under it (revision becomes
/// R + 1, lock released); their immediate re-acquisition attempt is
/// denied with `Cooldown`, at any later instant.
pub proof fn lemma_turn_alternation(
    db0: Database,
    db1: Database,
    db2: Database,
    id: i64,
    a: User,
    story1: Story,
    story2: Story,
    content: String,
    now1: i64,
    now2: i64,
    now3: i64,
)
    requires
        db0.wf(),
        acquire_outcome(db0, id, a, true, now1) == (AcquireOutcome::Granted { story: story1 }),
        acquire_lock_granted_rel(db0, db1, id, a, story1),
        acquire_outcome(db1, id, a, false, now2) == (AcquireOutcome::Granted { story: story2 }),
        post_contributed_rel(db1, db2, id, a, content, now2, story2),
        story2.contribution_count < i32::MAX,
    ensures
        acquire_outcome(db2, id, a, true, now3) == AcquireOutcome::Cooldown,
{
    assert(a.id is Some);
    let uid = a.id->0;
    assert(db1.spec_story(id) == Some(story1));
    assert(story2 == story1.with_lock(uid, (now2 + story1.lock_duration_s) as i64));
    assert(db2.spec_story(id) == Some(contributed_story(story2)));
    assert(contributed_story(story2).contribution_count == story1.contribution_count + 1);
    assert(db2.attempts == db1.attempts);
    assert(db2.attempts.spec_attempt_for(id, a.id) == Some(story1.contribution_count));
    assert(db2.access == db1.access);
    assert(db1.access == db0.access);
    assert(story_access_for(db2, contributed_story(story2), a).spec_grants_write());
    assert(!contributed_story(story2).locked_by_other(uid));
}

/// Expiration takes precedence over exclusivity: once a lock's
/// expiration lies strictly before "now", a different user passing the
/// access and fairness gates is granted the lock even though the prior
/// holder is still named in the record.
pub proof fn lemma_expired_lock_reacquirable(
    db: Database,
    id: i64,
    applicant: User,
    now: i64,
    s: Story,
    holder: i64,
)
    requires
        db.wf(),
        db.spec_story(id) == Some(s),
        s.lock_user_id == Some(holder),
        applicant.id is Some,
        applicant.id->0 != holder,
        s.lock_expiration matches Some(e) && e < now,
        story_access_for(db, s, applicant).spec_grants_write(),
        cooldown_permits(db.attempts.spec_attempt_for(id, applicant.id), s.contribution_count),
        i64::MIN <= now + s.lock_duration_s <= i64::MAX,
    ensures
        acquire_outcome(db, id, applicant, true, now) == (AcquireOutcome::Granted {
            story: s.with_lock(applicant.id->0, (now + s.lock_duration_s) as i64),
        }),
{
}

/// Re-entrant acquisition: the user named as holder may re-acquire
/// (for example to extend an expiring lock) before contributing,
/// without hitting the fairness rule, because their recorded baseline
/// still equals the story's revision count.
pub proof fn lemma_reentrant_acquire(
    db: Database,
    id: i64,
    applicant: User,
    acquire: bool,
    now: i64,
    s: Story,
)
    requires
        db.wf(),
        db.spec_story(id) == Some(s),
        applicant.id is Some,
        s.locked_by(applicant.id->0),
        db.attempts.spec_attempt_for(id, applicant.id) == Some(s.contribution_count),
        story_access_for(db, s, applicant).spec_grants_write(),
        i64::MIN <= now + s.lock_duration_s <= i64::MAX,
    ensures
        acquire_outcome(db, id, applicant, acquire, now) == (AcquireOutcome::Granted {
            story: s.with_lock(applicant.id->0, (now + s.lock_duration_s) as i64),
        }),
{
}

/// Access gating: an applicant whose effective access does not grant
/// writing receives `NotFound`, whatever the story's lock state, so a
/// permission failure is indistinguishable from absence.
pub proof fn lemma_access_gating(db: Database, id: i64, applicant: User, acquire: bool, now: i64)
    requires
        db.wf(),
        match db.spec_story(id) {
            Some(s) => !story_access_for(db, s, applicant).spec_grants_write(),
            None => true,
        },
    ensures
        acquire_outcome(db, id, applicant, acquire, now) == AcquireOutcome::NotFound,
{
}

/// The published/world-readable upgrade never lowers a grant: it raises
/// the level to at least `Reader` and keeps writing and administration
/// exactly as granted.
pub proof fn lemma_upgrade_never_lowers(level: AccessLevel)
    ensures
        level.spec_upgrade_to_read().spec_grants_read(),
        level.spec_upgrade_to_read().spec_grants_write() == level.spec_grants_write(),
        level.spec_upgrade_to_read().spec_grants_admin() == level.spec_grants_admin(),
        level.spec_grants_read() ==> level.spec_upgrade_to_read() == level,
{
}

/// The same, at the story level: effective access preserves writing and
/// administration exactly, and never takes reading away.
pub proof fn lemma_effective_access_never_lowers(story: Story, base: AccessLevel)
    ensures
        story.effective_access(base).spec_grants_write() == base.spec_grants_write(),
        story.effective_access(base).spec_grants_admin() == base.spec_grants_admin(),
        base.spec_grants_read() ==> story.effective_access(base).spec_grants_read(),
{
}

} // verus!
