//! The cooldown tracker: one record per (story, user) pair of the story
//! revision at which that user last acquired the turn lock.

use vstd::prelude::*;
use crate::error::{FictError, FictResult, fict_err};
use crate::model::story::Story;
use crate::model::user::User;

verus! {

/// The fairness rule: an acquisition by a user whose last recorded
/// attempt is `attempt` is permitted against a story whose revision count
/// is `current` when the user never attempted before, when the user is
/// re-acquiring at the very revision it already observed, or when at
/// least one other user has contributed a revision in between. It is
/// denied exactly when the user's own most recent action produced the
/// only new revision.
pub open spec fn cooldown_permits(attempt: Option<i32>, current: i32) -> bool {
    match attempt {
        None => true,
        Some(a) => a == current || a + 2 <= current,
    }
}

/// One stored cooldown record.
#[derive(Clone, Copy, Debug, PartialEq, Eq, Structural)]
pub struct AttemptRecord {
    pub story_id: i64,
    pub user_id: i64,
    pub contribution_count: i32,
}

/// Records when a `User` acquires a lock against a `Story`, to prevent
/// consecutive snippets being contributed by the same user: at most one
/// row per (story, user) pair.
pub struct ContributionAttempt {
    pub rows: Vec<AttemptRecord>,
}

impl ContributionAttempt {
    /// Row uniqueness: at most one record per (story, user) pair.
    pub open spec fn wf(self) -> bool {
        forall|i: int, j: int|
            0 <= i < j < self.rows@.len() ==> !(#[trigger] self.rows@[i].story_id == #[trigger] self.rows@[j].story_id
                && self.rows@[i].user_id == self.rows@[j].user_id)
    }

    /// True when a record for the pair is stored.
    pub open spec fn has_attempt(self, story_id: i64, user_id: i64) -> bool {
        exists|i: int|
            0 <= i < self.rows@.len() && #[trigger] self.rows@[i].story_id == story_id
                && self.rows@[i].user_id == user_id
    }

    /// The index of the record for the pair (meaningful only when
    /// `has_attempt` holds and the table is well formed).
    pub open spec fn attempt_index(self, story_id: i64, user_id: i64) -> int {
        choose|i: int|
            0 <= i < self.rows@.len() && #[trigger] self.rows@[i].story_id == story_id
                && self.rows@[i].user_id == user_id
    }

    /// The revision recorded for the pair, `None` when no row is stored.
    pub open spec fn spec_attempt(self, story_id: i64, user_id: i64) -> Option<i32> {
        if self.has_attempt(story_id, user_id) {
            Some(self.rows@[self.attempt_index(story_id, user_id)].contribution_count)
        } else {
            None
        }
    }

    /// The revision recorded for a possibly unpersisted user: a user
    /// without an identifier can have no record.
    pub open spec fn spec_attempt_for(self, story_id: i64, user_id: Option<i64>) -> Option<i32> {
        match user_id {
            Some(uid) => self.spec_attempt(story_id, uid),
            None => None,
        }
    }

    /// An empty table.
    pub fn new() -> (r: ContributionAttempt)
        ensures
            r.wf(),
            r.rows@.len() == 0,
            forall|s: i64, u: i64| !(#[trigger] r.has_attempt(s, u)),
    {
        ContributionAttempt { rows: Vec::new() }
    }

    /// Locate the record for a pair, if any.
    fn find(&self, story_id: i64, user_id: i64) -> (r: Option<usize>)
        requires
            self.wf(),
        ensures
            match r {
                Some(i) => {
                    &&& i < self.rows@.len()
                    &&& self.rows@[i as int].story_id == story_id
                    &&& self.rows@[i as int].user_id == user_id
                    &&& self.has_attempt(story_id, user_id)
                    &&& self.attempt_index(story_id, user_id) == i as int
                    &&& self.spec_attempt(story_id, user_id) == Some(
                        self.rows@[i as int].contribution_count,
                    )
                },
                None => !self.has_attempt(story_id, user_id),
            },
    {
        let mut idx: usize = 0;
        while idx < self.rows.len()
            invariant
                self.wf(),
                idx <= self.rows@.len(),
                forall|k: int|
                    0 <= k < idx ==> !(#[trigger] self.rows@[k].story_id == story_id
                        && self.rows@[k].user_id == user_id),
            decreases self.rows@.len() - idx,
        {
            let row = self.rows[idx];
            if row.story_id == story_id && row.user_id == user_id {
                proof {
                    lemma_attempt_at(*self, idx as int);
                }
                return Some(idx);
            }
            idx += 1;
        }
        None
    }

    /// The revision at which the user last acquired the story's lock, or
    /// `None` if the user never acquired it.
    pub fn most_recent_attempt(&self, story: &Story, user: &User) -> (r: Option<i32>)
        requires
            self.wf(),
        ensures
            r == self.spec_attempt_for(story.id, user.id),
    {
        match user.id {
            Some(uid) => {
                match self.find(story.id, uid) {
                    Some(i) => Some(self.rows[i].contribution_count),
                    None => None,
                }
            },
            None => None,
        }
    }

    /// Record a new contribution attempt at the story's current revision
    /// count, replacing any earlier record for the pair. A user that was
    /// never persisted cannot be recorded.
    pub fn record(&mut self, story: &Story, user: &User) -> (r: FictResult<()>)
        requires
            old(self).wf(),
        ensures
            final(self).wf(),
            match user.id {
                None => (r matches Err(e) && e is Message) && *final(self) == *old(self),
                Some(uid) => {
                    &&& r is Ok
                    &&& final(self).spec_attempt(story.id, uid) == Some(story.contribution_count)
                    &&& forall|s: i64, u: i64|
                        !(s == story.id && u == uid) ==> #[trigger] final(self).spec_attempt(s, u)
                            == old(self).spec_attempt(s, u)
                },
            },
    {
        let uid = match user.id {
            Some(uid) => uid,
            None => {
                return Err(fict_err("A user must be persisted to record an attempt"));
            },
        };

        match self.find(story.id, uid) {
            Some(i) => {
                let ghost pre = *self;
                let row = &mut self.rows[i];
                row.contribution_count = story.contribution_count;
                proof {
                    lemma_attempt_update_preserves(pre, *self, i as int);
                }
            },
            None => {
                let ghost pre = *self;
                self.rows.push(
                    AttemptRecord {
                        story_id: story.id,
                        user_id: uid,
                        contribution_count: story.contribution_count,
                    },
                );
                proof {
                    lemma_attempt_push_preserves(pre, *self);
                }
            },
        }
        Ok(())
    }
}

/// A stored record is the unique record of its pair: the table's lookup
/// spec functions land exactly on it.
pub proof fn lemma_attempt_at(t: ContributionAttempt, i: int)
    requires
        t.wf(),
        0 <= i < t.rows@.len(),
    ensures
        t.has_attempt(t.rows@[i].story_id, t.rows@[i].user_id),
        t.attempt_index(t.rows@[i].story_id, t.rows@[i].user_id) == i,
        t.spec_attempt(t.rows@[i].story_id, t.rows@[i].user_id) == Some(
            t.rows@[i].contribution_count,
        ),
{
    let sid = t.rows@[i].story_id;
    let uid = t.rows@[i].user_id;
    assert(t.has_attempt(sid, uid));
    let j = t.attempt_index(sid, uid);
    assert(0 <= j < t.rows@.len() && t.rows@[j].story_id == sid && t.rows@[j].user_id == uid);
    if j != i {
        assert(!(t.rows@[if i < j { i } else { j }].story_id == t.rows@[if i < j { j } else { i }].story_id
            && t.rows@[if i < j { i } else { j }].user_id == t.rows@[if i < j { j } else { i }].user_id));
        assert(false);
    }
}

/// Rewriting the count inside the unique record of a pair leaves every
/// other pair's lookup unchanged.
proof fn lemma_attempt_update_preserves(pre: ContributionAttempt, post: ContributionAttempt, i: int)
    requires
        pre.wf(),
        0 <= i < pre.rows@.len(),
        post.rows@.len() == pre.rows@.len(),
        post.rows@[i].story_id == pre.rows@[i].story_id,
        post.rows@[i].user_id == pre.rows@[i].user_id,
        forall|k: int| 0 <= k < pre.rows@.len() && k != i ==> #[trigger] post.rows@[k] == pre.rows@[k],
    ensures
        post.wf(),
        post.spec_attempt(pre.rows@[i].story_id, pre.rows@[i].user_id) == Some(
            post.rows@[i].contribution_count,
        ),
        forall|s: i64, u: i64|
            !(s == pre.rows@[i].story_id && u == pre.rows@[i].user_id) ==> #[trigger] post.spec_attempt(s, u)
                == pre.spec_attempt(s, u),
{
    assert forall|a: int, b: int| 0 <= a < b < post.rows@.len() implies !(#[trigger] post.rows@[a].story_id
        == #[trigger] post.rows@[b].story_id && post.rows@[a].user_id == post.rows@[b].user_id) by {
        assert(post.rows@[a].story_id == pre.rows@[a].story_id && post.rows@[a].user_id == pre.rows@[a].user_id);
        assert(post.rows@[b].story_id == pre.rows@[b].story_id && post.rows@[b].user_id == pre.rows@[b].user_id);
    }
    lemma_attempt_at(post, i);
    assert forall|s: i64, u: i64| !(s == pre.rows@[i].story_id && u == pre.rows@[i].user_id) implies
        #[trigger] post.spec_attempt(s, u) == pre.spec_attempt(s, u) by {
        if pre.has_attempt(s, u) {
            let k0 = pre.attempt_index(s, u);
            lemma_attempt_at(pre, k0);
            assert(k0 != i);
            assert(post.rows@[k0] == pre.rows@[k0]);
            lemma_attempt_at(post, k0);
        } else {
            if post.has_attempt(s, u) {
                let k1 = post.attempt_index(s, u);
                assert(k1 != i);
                assert(post.rows@[k1] == pre.rows@[k1]);
                lemma_attempt_at(pre, k1);
                assert(false);
            }
        }
    }
}

/// Appending a record for a pair that has no record yet leaves every
/// other pair's lookup unchanged.
proof fn lemma_attempt_push_preserves(pre: ContributionAttempt, post: ContributionAttempt)
    requires
        pre.wf(),
        post.rows@.len() == pre.rows@.len() + 1,
        forall|k: int| 0 <= k < pre.rows@.len() ==> #[trigger] post.rows@[k] == pre.rows@[k],
        !pre.has_attempt(
            post.rows@[post.rows@.len() - 1].story_id,
            post.rows@[post.rows@.len() - 1].user_id,
        ),
    ensures
        post.wf(),
        post.spec_attempt(
            post.rows@[post.rows@.len() - 1].story_id,
            post.rows@[post.rows@.len() - 1].user_id,
        ) == Some(post.rows@[post.rows@.len() - 1].contribution_count),
        forall|s: i64, u: i64|
            !(s == post.rows@[post.rows@.len() - 1].story_id && u == post.rows@[post.rows@.len() - 1].user_id)
                ==> #[trigger] post.spec_attempt(s, u) == pre.spec_attempt(s, u),
{
    let n = pre.rows@.len() as int;
    let sid = post.rows@[n].story_id;
    let uid = post.rows@[n].user_id;
    assert forall|a: int, b: int| 0 <= a < b < post.rows@.len() implies !(#[trigger] post.rows@[a].story_id
        == #[trigger] post.rows@[b].story_id && post.rows@[a].user_id == post.rows@[b].user_id) by {
        if b < n {
            assert(post.rows@[a] == pre.rows@[a] && post.rows@[b] == pre.rows@[b]);
        } else {
            if post.rows@[a].story_id == sid && post.rows@[a].user_id == uid {
                assert(pre.has_attempt(sid, uid));
                assert(false);
            }
        }
    }
    lemma_attempt_at(post, n);
    assert forall|s: i64, u: i64| !(s == sid && u == uid) implies #[trigger] post.spec_attempt(s, u)
        == pre.spec_attempt(s, u) by {
        if pre.has_attempt(s, u) {
            let k0 = pre.attempt_index(s, u);
            lemma_attempt_at(pre, k0);
            assert(post.rows@[k0] == pre.rows@[k0]);
            lemma_attempt_at(post, k0);
        } else {
            if post.has_attempt(s, u) {
                let k1 = post.attempt_index(s, u);
                assert(k1 != n);
                assert(post.rows@[k1] == pre.rows@[k1]);
                lemma_attempt_at(pre, k1);
                assert(false);
            }
        }
    }
}

} // verus!
