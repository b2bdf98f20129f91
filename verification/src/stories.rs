//! Story lock routes' decision logic: acquiring a lock for a fresh
//! contribution, and revoking one that is held.

use vstd::prelude::*;
use crate::error::{FictError, FictResult};
use crate::model::{
    AcquireOutcome, Database, Snippet, Story, User, acquire_outcome, lemma_lookup_congruence,
    story_replaced,
};

verus! {

/// The store after a granted [`acquire_lock`]: the story row now reads
/// `story` (the locked row), the applicant's cooldown baseline reads the
/// revision count observed under the lock, and nothing else changed.
pub open spec fn acquire_lock_granted_rel(
    pre: Database,
    post: Database,
    id: i64,
    applicant: User,
    story: Story,
) -> bool {
    &&& post.spec_story(id) == Some(story)
    &&& forall|x: i64| x != id ==> #[trigger] post.spec_story(x) == pre.spec_story(x)
    &&& post.stories@.len() == pre.stories@.len()
    &&& post.users == pre.users
    &&& post.sessions == pre.sessions
    &&& post.snippets == pre.snippets
    &&& post.access == pre.access
    &&& post.attempts.spec_attempt(id, applicant.id->0) == Some(story.contribution_count)
    &&& forall|s: i64, u: i64|
        !(s == id && u == applicant.id->0) ==> #[trigger] post.attempts.spec_attempt(s, u)
            == pre.attempts.spec_attempt(s, u)
    &&& post.next_story_id == pre.next_story_id
    &&& post.next_user_id == pre.next_user_id
    &&& post.next_session_id == pre.next_session_id
    &&& post.next_snippet_id == pre.next_snippet_id
    &&& post.next_snippet_ordinal == pre.next_snippet_ordinal
}

/// Acquire the turn lock on an existing story for `applicant`, record
/// the cooldown baseline at the revision count observed under the lock,
/// and return the locked story together with its most recent snippet
/// (what the next contributor continues from). A story that has never
/// received a snippet is a storage-level fault, reported after the lock
/// and the baseline are already committed, exactly as the store would
/// interleave them.
pub fn acquire_lock(db: &mut Database, story_id: i64, applicant: &User, now: i64) -> (r: FictResult<
    (Story, Snippet),
>)
    requires
        old(db).wf(),
    ensures
        final(db).wf(),
        match acquire_outcome(*old(db), story_id, *applicant, true, now) {
            AcquireOutcome::Granted { story } => {
                &&& acquire_lock_granted_rel(*old(db), *final(db), story_id, *applicant, story)
                &&& match old(db).spec_latest_snippet(story_id) {
                    Some(snip) => r == Ok::<(Story, Snippet), FictError>((story, snip)),
                    None => r matches Err(e) && e is Message,
                }
            },
            AcquireOutcome::NotFound => r == Err::<(Story, Snippet), FictError>(FictError::NotFound)
                && *final(db) == *old(db),
            AcquireOutcome::AlreadyLocked { username, expiration } => r == Err::<
                (Story, Snippet),
                FictError,
            >(FictError::AlreadyLocked { username, expiration }) && *final(db) == *old(db),
            AcquireOutcome::Unlocked => r == Err::<(Story, Snippet), FictError>(FictError::Unlocked)
                && *final(db) == *old(db),
            AcquireOutcome::Cooldown => r == Err::<(Story, Snippet), FictError>(FictError::Cooldown)
                && *final(db) == *old(db),
            AcquireOutcome::Fault => (r matches Err(e) && e is Message) && *final(db) == *old(db),
        },
{
    let story = match Story::locked_for_write_at(db, story_id, applicant, true, now) {
        Ok(s) => s,
        Err(e) => {
            return Err(e);
        },
    };
    let ghost mid = *db;
    match db.attempts.record(&story, applicant) {
        Ok(()) => (),
        Err(e) => {
            return Err(e);
        },
    }
    proof {
        // Recording the baseline touched only the cooldown table.
        lemma_lookup_congruence(mid, *db);
        lemma_lookup_congruence(*old(db), *db);
    }
    let snippet = match Snippet::most_recent(db, &story) {
        Ok(s) => s,
        Err(e) => {
            return Err(e);
        },
    };
    Ok((story, snippet))
}

/// Revoke a lock the caller holds on a story: the same gates as an
/// acquisition with `want_acquire` false (so a non-writer learns
/// nothing, and a story locked by someone else is refused), then the
/// conditional release. The net effect of passing every gate is a story
/// with its lock fields cleared.
pub fn revoke_lock(db: &mut Database, story_id: i64, user: &User, now: i64) -> (r: FictResult<()>)
    requires
        old(db).wf(),
    ensures
        final(db).wf(),
        match acquire_outcome(*old(db), story_id, *user, false, now) {
            AcquireOutcome::Granted { story } => r == Ok::<(), FictError>(()) && story_replaced(
                *old(db),
                *final(db),
                story_id,
                story.without_lock(),
            ),
            AcquireOutcome::NotFound => r == Err::<(), FictError>(FictError::NotFound) && *final(db)
                == *old(db),
            AcquireOutcome::AlreadyLocked { username, expiration } => r == Err::<(), FictError>(
                FictError::AlreadyLocked { username, expiration },
            ) && *final(db) == *old(db),
            AcquireOutcome::Unlocked => r == Err::<(), FictError>(FictError::Unlocked) && *final(db)
                == *old(db),
            AcquireOutcome::Cooldown => r == Err::<(), FictError>(FictError::Cooldown) && *final(db)
                == *old(db),
            AcquireOutcome::Fault => (r matches Err(e) && e is Message) && *final(db) == *old(db),
        },
{
    let story = match Story::locked_for_write_at(db, story_id, user, false, now) {
        Ok(s) => s,
        Err(e) => {
            return Err(e);
        },
    };
    match story.unlock(db) {
        Ok(()) => Ok(()),
        Err(e) => Err(e),
    }
}

} // verus!
