//! Snippet creation decision logic: contributing to an existing story
//! under its turn lock, or beginning a new story with a first snippet.

use vstd::prelude::*;
use crate::error::{FictError, FictResult, fict_err};
use crate::model::{
    AcquireOutcome, Database, Snippet, Story, User, acquire_outcome, appended_snippet,
    begin_rejected, lemma_lookup_congruence, snippet_sequence_exhausted, story_begun_with_snippet,
    story_replaced,
};

verus! {

/// The story row after a completed contribution under lock: the
/// revision count advanced by one and the lock released, all other
/// fields kept from the locked row.
pub open spec fn contributed_story(story: Story) -> Story {
    Story {
        contribution_count: (story.contribution_count + 1) as i32,
        lock_user_id: None,
        lock_expiration: None,
        ..story
    }
}

/// The store after a completed contribution to an existing story under
/// its turn lock: `story` is the locked row the gates produced; its
/// stored row now reads [`contributed_story`] of it, the new snippet row
/// is appended, and nothing else changed.
pub open spec fn post_contributed_rel(
    pre: Database,
    post: Database,
    id: i64,
    user: User,
    content: String,
    now: i64,
    story: Story,
) -> bool {
    let uid = user.id->0;
    let snip = appended_snippet(pre, uid, id, content, now);
    &&& post.spec_story(id) == Some(contributed_story(story))
    &&& forall|x: i64| x != id ==> #[trigger] post.spec_story(x) == pre.spec_story(x)
    &&& post.stories@.len() == pre.stories@.len()
    &&& post.snippets@ == pre.snippets@.push(snip)
    &&& post.next_snippet_id == pre.next_snippet_id + 1
    &&& post.next_snippet_ordinal == pre.next_snippet_ordinal + 1
    &&& post.users == pre.users
    &&& post.sessions == pre.sessions
    &&& post.access == pre.access
    &&& post.attempts == pre.attempts
    &&& post.next_story_id == pre.next_story_id
    &&& post.next_user_id == pre.next_user_id
    &&& post.next_session_id == pre.next_session_id
}

/// Accept one snippet. With a story identifier, the contributor must
/// pass every acquisition gate with `want_acquire` false (so the story
/// must exist, be writable by the contributor, and be effectively held
/// by them); the snippet is then stored, the story's revision count
/// advances by one, and the lock is released. Without a story
/// identifier, a new story is begun with this snippet as its first
/// contribution.
pub fn post(
    db: &mut Database,
    story_id: Option<i64>,
    user: &User,
    content: String,
    now: i64,
) -> (r: FictResult<()>)
    requires
        old(db).wf(),
    ensures
        final(db).wf(),
        ({
            match story_id {
                Some(id) => {
                    match acquire_outcome(*old(db), id, *user, false, now) {
                        AcquireOutcome::Granted { story } => {
                            let uid = user.id->0;
                            let snip = appended_snippet(*old(db), uid, id, content, now);
                            if !old(db).has_user(uid) {
                                (r matches Err(e) && e is Message) && story_replaced(
                                    *old(db),
                                    *final(db),
                                    id,
                                    story,
                                )
                            } else if snippet_sequence_exhausted(*old(db)) {
                                (r matches Err(e) && e is Message) && story_replaced(
                                    *old(db),
                                    *final(db),
                                    id,
                                    story,
                                )
                            } else if story.contribution_count == i32::MAX {
                                &&& r matches Err(e) && e is Message
                                &&& final(db).spec_story(id) == Some(story)
                                &&& forall|x: i64|
                                    x != id ==> #[trigger] final(db).spec_story(x) == old(
                                        db,
                                    ).spec_story(x)
                                &&& final(db).stories@.len() == old(db).stories@.len()
                                &&& final(db).snippets@ == old(db).snippets@.push(snip)
                                &&& final(db).next_snippet_id == old(db).next_snippet_id + 1
                                &&& final(db).next_snippet_ordinal == old(db).next_snippet_ordinal
                                    + 1
                                &&& final(db).users == old(db).users
                                &&& final(db).sessions == old(db).sessions
                                &&& final(db).access == old(db).access
                                &&& final(db).attempts == old(db).attempts
                                &&& final(db).next_story_id == old(db).next_story_id
                                &&& final(db).next_user_id == old(db).next_user_id
                                &&& final(db).next_session_id == old(db).next_session_id
                            } else {
                                &&& r == Ok::<(), FictError>(())
                                &&& post_contributed_rel(
                                    *old(db),
                                    *final(db),
                                    id,
                                    *user,
                                    content,
                                    now,
                                    story,
                                )
                            }
                        },
                        AcquireOutcome::NotFound => r == Err::<(), FictError>(FictError::NotFound)
                            && *final(db) == *old(db),
                        AcquireOutcome::AlreadyLocked { username, expiration } => r == Err::<
                            (),
                            FictError,
                        >(FictError::AlreadyLocked { username, expiration }) && *final(db) == *old(
                            db,
                        ),
                        AcquireOutcome::Unlocked => r == Err::<(), FictError>(FictError::Unlocked)
                            && *final(db) == *old(db),
                        AcquireOutcome::Cooldown => r == Err::<(), FictError>(FictError::Cooldown)
                            && *final(db) == *old(db),
                        AcquireOutcome::Fault => (r matches Err(e) && e is Message) && *final(db)
                            == *old(db),
                    }
                },
                None => {
                    &&& begin_rejected(*old(db), *user) ==> (r matches Err(e) && e is Message)
                        && *final(db) == *old(db)
                    &&& !begin_rejected(*old(db), *user) ==> {
                        &&& story_begun_with_snippet(*old(db), *final(db), *user, content, now)
                        &&& if snippet_sequence_exhausted(*old(db)) {
                            r matches Err(e) && e is Message
                        } else {
                            r == Ok::<(), FictError>(())
                        }
                    }
                },
            }
        }),
{
    match story_id {
        Some(id) => {
            // Ensure that the contributor effectively holds a live lock
            // on an existing story.
            let mut story = match Story::locked_for_write_at(db, id, user, false, now) {
                Ok(s) => s,
                Err(e) => {
                    return Err(e);
                },
            };
            let ghost s1 = *db;

            match Snippet::contribute(db, &story, user, content, now) {
                Ok(_) => (),
                Err(e) => {
                    return Err(e);
                },
            }
            proof {
                // The contribution touched only the snippet table.
                lemma_lookup_congruence(s1, *db);
            }

            let new_count = match story.contribution_count.checked_add(1) {
                Some(c) => c,
                None => {
                    return Err(fict_err("Contribution count cannot be represented"));
                },
            };
            story.contribution_count = new_count;

            match story.save(db) {
                Ok(()) => (),
                Err(e) => {
                    return Err(e);
                },
            }

            match story.unlock(db) {
                Ok(()) => Ok(()),
                Err(e) => Err(e),
            }
        },
        None => {
            // Begin a new story belonging to the contributor, holding
            // this snippet as its first contribution.
            match Snippet::begin(db, user, content, now) {
                Ok(_) => Ok(()),
                Err(e) => Err(e),
            }
        },
    }
}

} // verus!
