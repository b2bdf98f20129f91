//! Stories and the turn-lock state machine that guards them.

use vstd::prelude::*;
use crate::error::{FictError, FictResult, fict_err};
use crate::model::Database;
use crate::model::lemma_story_at;
use crate::model::access::AccessLevel;
use crate::model::cooldown::cooldown_permits;
use crate::model::user::User;

verus! {

/// Lock span, in seconds, given to every newly created story.
pub const DEFAULT_LOCK_DURATION_S: i64 = 21600;

/// An ordered sequence of snippets that combine to form a (hopefully)
/// hilarious piece of fiction.
///
/// The pair `lock_user_id` / `lock_expiration` is the turn lock: both are
/// set, together, while some user holds the exclusive right to contribute
/// the next snippet, and both are `None` otherwise. Timestamps are seconds
/// since the Unix epoch.
#[derive(Debug)]
pub struct Story {
    pub id: i64,
    pub title: Option<String>,
    pub published: bool,
    pub world_readable: bool,
    pub lock_duration_s: i64,
    pub contribution_count: i32,
    pub creation_time: i64,
    pub update_time: i64,
    pub publish_time: Option<i64>,
    pub lock_user_id: Option<i64>,
    pub lock_expiration: Option<i64>,
}

impl Clone for Story {
    fn clone(&self) -> (r: Self)
        ensures
            r == *self,
    {
        Story {
            id: self.id,
            title: match &self.title {
                Some(t) => Some(t.clone()),
                None => None,
            },
            published: self.published,
            world_readable: self.world_readable,
            lock_duration_s: self.lock_duration_s,
            contribution_count: self.contribution_count,
            creation_time: self.creation_time,
            update_time: self.update_time,
            publish_time: self.publish_time,
            lock_user_id: self.lock_user_id,
            lock_expiration: self.lock_expiration,
        }
    }
}

impl Story {
    /// The lock-field consistency invariant: the lock holder and the lock
    /// expiration are always set together.
    pub open spec fn lock_consistent(self) -> bool {
        self.lock_user_id is Some <==> self.lock_expiration is Some
    }

    /// True when some user other than `user_id` is named as lock holder
    /// (whether or not that lock has expired).
    pub open spec fn locked_by_other(self, user_id: i64) -> bool {
        match self.lock_user_id {
            Some(holder) => holder != user_id,
            None => false,
        }
    }

    /// True when `user_id` is named as lock holder (whether or not that
    /// lock has expired).
    pub open spec fn locked_by(self, user_id: i64) -> bool {
        self.lock_user_id == Some(user_id)
    }

    /// True when the recorded lock expiration lies at or after `now`.
    pub open spec fn expiration_valid(self, now: i64) -> bool {
        match self.lock_expiration {
            Some(expiration) => expiration >= now,
            None => false,
        }
    }

    /// The level a base grant yields on this story: a story that is both
    /// published and world readable raises everyone to at least `Reader`,
    /// and never lowers an existing grant.
    pub open spec fn effective_access(self, base: AccessLevel) -> AccessLevel {
        if self.published && self.world_readable {
            base.spec_upgrade_to_read()
        } else {
            base
        }
    }

    /// This story with its turn lock granted to `user_id` until
    /// `expiration`.
    pub open spec fn with_lock(self, user_id: i64, expiration: i64) -> Story {
        Story { lock_user_id: Some(user_id), lock_expiration: Some(expiration), ..self }
    }

    /// This story with its turn lock cleared.
    pub open spec fn without_lock(self) -> Story {
        Story { lock_user_id: None, lock_expiration: None, ..self }
    }

    /// The stored row after [`Story::save`]: every non-lock field taken
    /// from this in-memory copy, the identifier and both lock fields kept
    /// from the stored row.
    pub open spec fn saved_onto(self, stored: Story) -> Story {
        Story {
            id: stored.id,
            lock_user_id: stored.lock_user_id,
            lock_expiration: stored.lock_expiration,
            ..self
        }
    }
}

/// A freshly created story: unlocked, unpublished, revision zero, with
/// the default lock span and both of its timestamps at `now`.
pub open spec fn fresh_story(id: i64, now: i64) -> Story {
    Story {
        id: id,
        title: None,
        published: false,
        world_readable: false,
        lock_duration_s: DEFAULT_LOCK_DURATION_S,
        contribution_count: 0,
        creation_time: now,
        update_time: now,
        publish_time: None,
        lock_user_id: None,
        lock_expiration: None,
    }
}

/// The effective access a user enjoys on a story in a store: the stored
/// grant (absence meaning `NoAccess`), raised to at least `Reader` when
/// the story is both published and world readable.
pub open spec fn story_access_for(db: Database, story: Story, user: User) -> AccessLevel {
    story.effective_access(db.access.spec_base_level(story.id, user.id))
}

/// Everything of the store except its story table is unchanged.
pub open spec fn same_tables_except_stories(pre: Database, post: Database) -> bool {
    &&& post.users == pre.users
    &&& post.sessions == pre.sessions
    &&& post.snippets == pre.snippets
    &&& post.access == pre.access
    &&& post.attempts == pre.attempts
    &&& post.next_story_id == pre.next_story_id
    &&& post.next_user_id == pre.next_user_id
    &&& post.next_session_id == pre.next_session_id
    &&& post.next_snippet_id == pre.next_snippet_id
    &&& post.next_snippet_ordinal == pre.next_snippet_ordinal
}

/// Exactly one story row, the one with identifier `id`, now reads `s`;
/// every other row and every other table is unchanged.
pub open spec fn story_replaced(pre: Database, post: Database, id: i64, s: Story) -> bool {
    &&& same_tables_except_stories(pre, post)
    &&& post.stories@.len() == pre.stories@.len()
    &&& post.spec_story(id) == Some(s)
    &&& forall|x: i64| x != id ==> #[trigger] post.spec_story(x) == pre.spec_story(x)
}

/// Replacing the unique story row of an identifier, with the identifier
/// kept, leaves every other identifier's lookup unchanged.
pub(crate) proof fn lemma_story_replace(pre: Database, post: Database, i: int)
    requires
        pre.stories_wf(),
        0 <= i < pre.stories@.len(),
        post.stories@.len() == pre.stories@.len(),
        post.stories@[i].id == pre.stories@[i].id,
        post.stories@[i].lock_consistent(),
        forall|k: int| 0 <= k < pre.stories@.len() && k != i ==> #[trigger] post.stories@[k] == pre.stories@[k],
        post.next_story_id == pre.next_story_id,
    ensures
        post.stories_wf(),
        post.spec_story(pre.stories@[i].id) == Some(post.stories@[i]),
        forall|x: i64|
            x != pre.stories@[i].id ==> #[trigger] post.spec_story(x) == pre.spec_story(x),
{
    let id = pre.stories@[i].id;
    assert forall|a: int, b: int| 0 <= a < b < post.stories@.len() implies #[trigger] post.stories@[a].id
        != #[trigger] post.stories@[b].id by {
        assert(post.stories@[a].id == pre.stories@[a].id);
        assert(post.stories@[b].id == pre.stories@[b].id);
    }
    assert forall|k: int| 0 <= k < post.stories@.len() implies #[trigger] post.stories@[k].id
        < post.next_story_id by {
        assert(post.stories@[k].id == pre.stories@[k].id);
    }
    assert forall|k: int| 0 <= k < post.stories@.len() implies (#[trigger] post.stories@[k]).lock_consistent() by {
        if k != i {
            assert(post.stories@[k] == pre.stories@[k]);
        }
    }
    lemma_story_at(post, i);
    assert forall|x: i64| x != id implies #[trigger] post.spec_story(x) == pre.spec_story(x) by {
        if pre.has_story(x) {
            let k0 = pre.story_index(x);
            lemma_story_at(pre, k0);
            assert(k0 != i);
            assert(post.stories@[k0] == pre.stories@[k0]);
            lemma_story_at(post, k0);
        } else {
            if post.has_story(x) {
                let k1 = post.story_index(x);
                assert(k1 != i);
                assert(post.stories@[k1] == pre.stories@[k1]);
                lemma_story_at(pre, k1);
                assert(false);
            }
        }
    }
}

/// Appending a story row with a fresh identifier leaves every other
/// identifier's lookup unchanged.
pub(crate) proof fn lemma_story_push(pre: Database, post: Database)
    requires
        pre.stories_wf(),
        post.stories@.len() == pre.stories@.len() + 1,
        forall|k: int| 0 <= k < pre.stories@.len() ==> #[trigger] post.stories@[k] == pre.stories@[k],
        post.stories@[post.stories@.len() - 1].id == pre.next_story_id,
        post.stories@[post.stories@.len() - 1].lock_consistent(),
        post.next_story_id > pre.next_story_id,
    ensures
        post.stories_wf(),
        !pre.has_story(pre.next_story_id),
        post.spec_story(pre.next_story_id) == Some(post.stories@[post.stories@.len() - 1]),
        forall|x: i64|
            x != pre.next_story_id ==> #[trigger] post.spec_story(x) == pre.spec_story(x),
{
    let n = pre.stories@.len() as int;
    let id = pre.next_story_id;
    assert forall|a: int, b: int| 0 <= a < b < post.stories@.len() implies #[trigger] post.stories@[a].id
        != #[trigger] post.stories@[b].id by {
        if b < n {
            assert(post.stories@[a] == pre.stories@[a] && post.stories@[b] == pre.stories@[b]);
        } else {
            assert(post.stories@[a] == pre.stories@[a]);
            assert(pre.stories@[a].id < id);
        }
    }
    assert forall|k: int| 0 <= k < post.stories@.len() implies #[trigger] post.stories@[k].id
        < post.next_story_id by {
        if k < n {
            assert(post.stories@[k] == pre.stories@[k]);
        }
    }
    assert forall|k: int| 0 <= k < post.stories@.len() implies (#[trigger] post.stories@[k]).lock_consistent() by {
        if k < n {
            assert(post.stories@[k] == pre.stories@[k]);
        }
    }
    if pre.has_story(id) {
        let k = pre.story_index(id);
        lemma_story_at(pre, k);
        assert(false);
    }
    lemma_story_at(post, n);
    assert forall|x: i64| x != id implies #[trigger] post.spec_story(x) == pre.spec_story(x) by {
        if pre.has_story(x) {
            let k0 = pre.story_index(x);
            lemma_story_at(pre, k0);
            assert(post.stories@[k0] == pre.stories@[k0]);
            lemma_story_at(post, k0);
        } else {
            if post.has_story(x) {
                let k1 = post.story_index(x);
                assert(k1 != n);
                assert(post.stories@[k1] == pre.stories@[k1]);
                lemma_story_at(pre, k1);
                assert(false);
            }
        }
    }
}

impl Story {
    /// Search for an existing story by identifier.
    pub fn with_id(db: &Database, id: i64) -> (r: Option<Story>)
        requires
            db.wf(),
        ensures
            r == db.spec_story(id),
    {
        match db.find_story(id) {
            Some(i) => Some(db.stories[i].clone()),
            None => None,
        }
    }

    /// Determine the level of access granted to a given `User` on this
    /// story: the stored grant, raised to at least `Reader` when the
    /// story is both published and world readable.
    pub fn access_for(&self, db: &Database, user: &User) -> (r: AccessLevel)
        requires
            db.wf(),
        ensures
            r == story_access_for(*db, *self, *user),
    {
        let base = db.access.access_for(user, self);
        if self.published && self.world_readable {
            base.upgrade_to_read()
        } else {
            base
        }
    }

    /// Revoke the currently-held story lock: a conditional update keyed
    /// on both the story identifier and the holder this copy names, so a
    /// stale request (the lock already expired and re-acquired by someone
    /// else) matches no row, changes nothing, and reports
    /// `ReleaseFailed`.
    pub fn unlock(&self, db: &mut Database) -> (r: FictResult<()>)
        requires
            old(db).wf(),
        ensures
            final(db).wf(),
            if old(db).spec_story(self.id) matches Some(s) && self.lock_user_id is Some
                && s.lock_user_id == self.lock_user_id {
                r is Ok && story_replaced(
                    *old(db),
                    *final(db),
                    self.id,
                    old(db).spec_story(self.id)->0.without_lock(),
                )
            } else {
                (r matches Err(e) && e is ReleaseFailed) && *final(db) == *old(db)
            },
    {
        let expected = match self.lock_user_id {
            Some(u) => u,
            None => {
                return Err(FictError::ReleaseFailed);
            },
        };
        let i = match db.find_story(self.id) {
            Some(i) => i,
            None => {
                return Err(FictError::ReleaseFailed);
            },
        };
        let held = match db.stories[i].lock_user_id {
            Some(h) => h == expected,
            None => false,
        };
        if !held {
            return Err(FictError::ReleaseFailed);
        }
        let ghost pre = *db;
        let row = &mut db.stories[i];
        row.lock_user_id = None;
        row.lock_expiration = None;
        proof {
            lemma_story_replace(pre, *db, i as int);
        }
        Ok(())
    }

    /// Persist any local changes other than to the lock fields: the
    /// stored row takes this copy's title, flags, counters and
    /// timestamps, while `lock_user_id` and `lock_expiration` stay
    /// exactly as stored, so a content save can never race a lock
    /// mutation into a lost update.
    pub fn save(&self, db: &mut Database) -> (r: FictResult<()>)
        requires
            old(db).wf(),
        ensures
            final(db).wf(),
            match old(db).spec_story(self.id) {
                Some(s) => r is Ok && story_replaced(
                    *old(db),
                    *final(db),
                    self.id,
                    self.saved_onto(s),
                ),
                None => (r matches Err(e) && e is Message) && *final(db) == *old(db),
            },
    {
        let i = match db.find_story(self.id) {
            Some(i) => i,
            None => {
                return Err(fict_err("Unable to update story"));
            },
        };
        let ghost pre = *db;
        let row = &mut db.stories[i];
        row.title = match &self.title {
            Some(t) => Some(t.clone()),
            None => None,
        };
        row.published = self.published;
        row.world_readable = self.world_readable;
        row.lock_duration_s = self.lock_duration_s;
        row.contribution_count = self.contribution_count;
        row.creation_time = self.creation_time;
        row.update_time = self.update_time;
        row.publish_time = self.publish_time;
        proof {
            lemma_story_replace(pre, *db, i as int);
        }
        Ok(())
    }

    /// Create and persist a new story whose owner is `owner`: a fresh
    /// identifier, no title, unpublished, revision zero, unlocked, the
    /// default lock span, both timestamps at `now`, and an `Owner` grant
    /// for `owner`. Nothing is stored unless every step can succeed.
    pub fn begin(db: &mut Database, owner: &User, now: i64) -> (r: FictResult<Story>)
        requires
            old(db).wf(),
        ensures
            final(db).wf(),
            ({
                let new_id = old(db).next_story_id;
                match owner.id {
                    None => (r matches Err(e) && e is Message) && *final(db) == *old(db),
                    Some(uid) => {
                        if !old(db).has_user(uid) {
                            (r matches Err(e) && e is Message) && *final(db) == *old(db)
                        } else if new_id == i64::MAX {
                            (r matches Err(e) && e is Message) && *final(db) == *old(db)
                        } else {
                            &&& r == Ok::<Story, FictError>(fresh_story(new_id, now))
                            &&& !old(db).has_story(new_id)
                            &&& final(db).spec_story(new_id) == Some(fresh_story(new_id, now))
                            &&& forall|x: i64|
                                x != new_id ==> #[trigger] final(db).spec_story(x) == old(
                                    db,
                                ).spec_story(x)
                            &&& final(db).stories@.len() == old(db).stories@.len() + 1
                            &&& final(db).next_story_id == new_id + 1
                            &&& final(db).access.has_grant(new_id, uid)
                            &&& final(db).access.spec_level(new_id, uid) == AccessLevel::Owner
                            &&& forall|s: i64, u: i64|
                                !(s == new_id && u == uid) ==> #[trigger] final(db).access.spec_level(
                                    s,
                                    u,
                                ) == old(db).access.spec_level(s, u) && final(db).access.has_grant(
                                    s,
                                    u,
                                ) == old(db).access.has_grant(s, u)
                            &&& final(db).users == old(db).users
                            &&& final(db).sessions == old(db).sessions
                            &&& final(db).snippets == old(db).snippets
                            &&& final(db).attempts == old(db).attempts
                            &&& final(db).next_user_id == old(db).next_user_id
                            &&& final(db).next_session_id == old(db).next_session_id
                            &&& final(db).next_snippet_id == old(db).next_snippet_id
                            &&& final(db).next_snippet_ordinal == old(db).next_snippet_ordinal
                        }
                    },
                }
            }),
    {
        let uid = match owner.id {
            Some(u) => u,
            None => {
                return Err(fict_err("A user must be persisted to begin a story"));
            },
        };
        match db.find_user(uid) {
            Some(_) => (),
            None => {
                return Err(fict_err("A user must be persisted to begin a story"));
            },
        }
        if db.next_story_id == i64::MAX {
            return Err(fict_err("Story id sequence exhausted"));
        }
        let new_id = db.next_story_id;
        let story = Story {
            id: new_id,
            title: None,
            published: false,
            world_readable: false,
            lock_duration_s: DEFAULT_LOCK_DURATION_S,
            contribution_count: 0,
            creation_time: now,
            update_time: now,
            publish_time: None,
            lock_user_id: None,
            lock_expiration: None,
        };
        let ghost pre = *db;
        db.stories.push(story.clone());
        db.next_story_id = new_id + 1;
        proof {
            lemma_story_push(pre, *db);
        }
        let ghost mid = *db;
        match db.access.grant(&story, owner, &AccessLevel::Owner) {
            Ok(()) => (),
            Err(e) => {
                return Err(e);
            },
        }
        proof {
            // The grant touched only the access table, so every story
            // lookup still reads as it did right after the push.
            assert(db.stories@ == mid.stories@);
            assert forall|x: i64| x != new_id implies #[trigger] db.spec_story(x) == pre.spec_story(
                x,
            ) by {
                assert(mid.spec_story(x) == pre.spec_story(x));
            }
        }
        Ok(story)
    }
}

/// What one acquisition attempt decides, as a function of the store, the
/// inputs and the clock: the turn-lock state machine's transition label.
pub ghost enum AcquireOutcome {
    /// Every gate passed: the lock now belongs to the applicant, and
    /// `story` is the updated row.
    Granted { story: Story },
    /// The story does not exist, or the applicant may not write to it
    /// (deliberately indistinguishable).
    NotFound,
    /// Someone else holds an unexpired lock.
    AlreadyLocked { username: String, expiration: i64 },
    /// A pure status check (`acquire` false) found the story held by
    /// nobody.
    Unlocked,
    /// The fairness rule denied the acquisition.
    Cooldown,
    /// A storage-level fault: a referenced user row is missing, or the
    /// new expiration cannot be represented.
    Fault,
}

/// The decision the turn-lock state machine takes for an acquisition
/// attempt, gate by gate: existence, write access, competing unexpired
/// lock, pure status check, fairness, then the grant itself.
pub open spec fn acquire_outcome(
    db: Database,
    id: i64,
    applicant: User,
    acquire: bool,
    now: i64,
) -> AcquireOutcome {
    match db.spec_story(id) {
        None => AcquireOutcome::NotFound,
        Some(story) => {
            let access = story_access_for(db, story, applicant);
            if !access.spec_grants_write() {
                AcquireOutcome::NotFound
            } else {
                let uid = applicant.id->0;
                if story.locked_by_other(uid) && story.expiration_valid(now) {
                    match db.spec_user(story.lock_user_id->0) {
                        Some(holder) => AcquireOutcome::AlreadyLocked {
                            username: holder.name,
                            expiration: story.lock_expiration->0,
                        },
                        None => AcquireOutcome::Fault,
                    }
                } else if !acquire && !story.locked_by(uid) && !story.expiration_valid(now) {
                    AcquireOutcome::Unlocked
                } else if !cooldown_permits(
                    db.attempts.spec_attempt_for(id, applicant.id),
                    story.contribution_count,
                ) {
                    AcquireOutcome::Cooldown
                } else if now + story.lock_duration_s > i64::MAX || now + story.lock_duration_s
                    < i64::MIN {
                    AcquireOutcome::Fault
                } else {
                    AcquireOutcome::Granted {
                        story: story.with_lock(uid, (now + story.lock_duration_s) as i64),
                    }
                }
            }
        },
    }
}

/// How one acquisition attempt relates the store before the call, the
/// store after it, and the returned value: on a grant exactly the one
/// story row changes, and on every other outcome nothing changes at all.
pub open spec fn acquire_rel(
    pre: Database,
    post: Database,
    r: FictResult<Story>,
    id: i64,
    applicant: User,
    acquire: bool,
    now: i64,
) -> bool {
    match acquire_outcome(pre, id, applicant, acquire, now) {
        AcquireOutcome::Granted { story } => {
            &&& r == Ok::<Story, FictError>(story)
            &&& story_replaced(pre, post, id, story)
        },
        AcquireOutcome::NotFound => r == Err::<Story, FictError>(FictError::NotFound) && post
            == pre,
        AcquireOutcome::AlreadyLocked { username, expiration } => r == Err::<Story, FictError>(
            FictError::AlreadyLocked { username, expiration },
        ) && post == pre,
        AcquireOutcome::Unlocked => r == Err::<Story, FictError>(FictError::Unlocked) && post
            == pre,
        AcquireOutcome::Cooldown => r == Err::<Story, FictError>(FictError::Cooldown) && post
            == pre,
        AcquireOutcome::Fault => (r matches Err(e) && e is Message) && post == pre,
    }
}

impl Story {
    /// Search for an existing story by identifier and ensure that the
    /// applicant holds an unexpired lock on it, against an explicit
    /// clock reading.
    ///
    /// The whole protocol runs against the store as one serialized
    /// operation (the stand-in for "row-lock, check, mutate, commit"):
    /// no gate failure changes anything, and the grant changes exactly
    /// the story's two lock fields.
    pub fn locked_for_write_at(
        db: &mut Database,
        id: i64,
        applicant: &User,
        acquire: bool,
        now: i64,
    ) -> (r: FictResult<Story>)
        requires
            old(db).wf(),
        ensures
            final(db).wf(),
            acquire_rel(*old(db), *final(db), r, id, *applicant, acquire, now),
    {
        // Locate the story row; absence is NotFound.
        let i = match db.find_story(id) {
            Some(i) => i,
            None => {
                return Err(FictError::NotFound);
            },
        };
        let story = db.stories[i].clone();

        // Applicant without write access learns nothing beyond NotFound.
        let access = story.access_for(db, applicant);
        if !access.grants_write() {
            return Err(FictError::NotFound);
        }

        // Write access implies a stored grant, so the applicant is
        // persisted; the arm below is unreachable.
        let applicant_id = match applicant.id {
            Some(uid) => uid,
            None => {
                return Err(fict_err("A user must be persisted to lock a story"));
            },
        };

        let locked_by_other = match story.lock_user_id {
            Some(holder) => holder != applicant_id,
            None => false,
        };
        let expiration_valid = match story.lock_expiration {
            Some(e) => e >= now,
            None => false,
        };

        // A competing unexpired lock is reported with its holder's name.
        if locked_by_other && expiration_valid {
            let holder_id = match story.lock_user_id {
                Some(h) => h,
                None => {
                    return Err(fict_err("Lock holder row is missing"));
                },
            };
            let expiration = match story.lock_expiration {
                Some(e) => e,
                None => {
                    return Err(fict_err("Lock holder row is missing"));
                },
            };
            return match db.find_user(holder_id) {
                Some(j) => Err(
                    FictError::AlreadyLocked { username: db.users[j].name.clone(), expiration },
                ),
                None => Err(fict_err("Lock holder row is missing")),
            };
        }

        // A pure status check on a story nobody holds reports Unlocked.
        if !acquire {
            let locked_by_applicant = match story.lock_user_id {
                Some(holder) => holder == applicant_id,
                None => false,
            };
            if !locked_by_applicant && !expiration_valid {
                return Err(FictError::Unlocked);
            }
        }

        // The fairness rule: deny when the applicant's own last action
        // produced the only new revision.
        let attempt = db.attempts.most_recent_attempt(&story, applicant);
        let permitted = match attempt {
            None => true,
            Some(a) => a == story.contribution_count || (a as i64) + 2 <= (
            story.contribution_count as i64),
        };
        if !permitted {
            return Err(FictError::Cooldown);
        }

        // Acquire the lock and compute the new expiration.
        let expiration = match now.checked_add(story.lock_duration_s) {
            Some(e) => e,
            None => {
                return Err(fict_err("Lock expiration cannot be represented"));
            },
        };
        let ghost pre = *db;
        let row = &mut db.stories[i];
        row.lock_user_id = Some(applicant_id);
        row.lock_expiration = Some(expiration);
        proof {
            lemma_story_replace(pre, *db, i as int);
        }
        let mut updated = story;
        updated.lock_user_id = Some(applicant_id);
        updated.lock_expiration = Some(expiration);
        Ok(updated)
    }

    /// Search for an existing story by identifier and ensure that the
    /// applicant holds an unexpired lock on it, reading the clock for
    /// "now". Every property of [`Story::locked_for_write_at`] holds for
    /// the instant that was read.
    pub fn locked_for_write(db: &mut Database, id: i64, applicant: &User, acquire: bool) -> (r:
        FictResult<Story>)
        requires
            old(db).wf(),
        ensures
            final(db).wf(),
            exists|now: i64|
                #[trigger] acquire_rel(*old(db), *final(db), r, id, *applicant, acquire, now),
    {
        let now = crate::clock::now_utc_s();
        Self::locked_for_write_at(db, id, applicant, acquire, now)
    }
}

} // verus!
