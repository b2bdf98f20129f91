//! Access levels and the per-(story, user) access-grant table.

use vstd::prelude::*;
use crate::error::{FictError, FictResult, fict_err};
use crate::model::story::Story;
use crate::model::user::User;

verus! {

/// Level of access granted to a specific `User` on a `Story`.
///
/// Levels are ordered `NoAccess < Reader < Writer < Owner`; each level
/// implies every capability of the levels below it.
#[derive(Clone, Copy, Debug, PartialEq, Eq, Structural)]
pub enum AccessLevel {
    NoAccess,
    Reader,
    Writer,
    Owner,
}

impl AccessLevel {
    /// True when this level lets a user learn that the story exists.
    pub open spec fn spec_grants_read(self) -> bool {
        self is Reader || self is Writer || self is Owner
    }

    /// True when this level lets a user contribute snippets.
    pub open spec fn spec_grants_write(self) -> bool {
        self is Writer || self is Owner
    }

    /// True when this level lets a user administer the story.
    pub open spec fn spec_grants_admin(self) -> bool {
        self is Owner
    }

    /// The level raised to at least `Reader`, higher levels kept.
    pub open spec fn spec_upgrade_to_read(self) -> AccessLevel {
        if self is NoAccess {
            AccessLevel::Reader
        } else {
            self
        }
    }

    /// Convert an `AccessLevel` into an integer for serialization within a
    /// record store.
    pub fn encode(&self) -> (code: i32)
        ensures
            code == self.spec_encode(),
    {
        match *self {
            AccessLevel::NoAccess => 0,
            AccessLevel::Reader => 1,
            AccessLevel::Writer => 2,
            AccessLevel::Owner => 3,
        }
    }

    /// The integer that [`AccessLevel::encode`] produces.
    pub open spec fn spec_encode(self) -> i32 {
        match self {
            AccessLevel::NoAccess => 0,
            AccessLevel::Reader => 1,
            AccessLevel::Writer => 2,
            AccessLevel::Owner => 3,
        }
    }

    /// Create an `AccessLevel` from an integer previously produced by
    /// [`AccessLevel::encode`]. Every other integer is rejected.
    pub fn decode(value: i32) -> (r: FictResult<AccessLevel>)
        ensures
            0 <= value <= 3 ==> (r matches Ok(l) && l.spec_encode() == value),
            !(0 <= value <= 3) ==> (r matches Err(e) && e is Message),
    {
        match value {
            0 => Ok(AccessLevel::NoAccess),
            1 => Ok(AccessLevel::Reader),
            2 => Ok(AccessLevel::Writer),
            3 => Ok(AccessLevel::Owner),
            _ => Err(fict_err("Invalid encoded access level")),
        }
    }

    /// Return true if this level permits users to know the existence of
    /// this story in search results and so on.
    pub fn grants_read(&self) -> (r: bool)
        ensures
            r == self.spec_grants_read(),
    {
        match *self {
            AccessLevel::Reader | AccessLevel::Writer | AccessLevel::Owner => true,
            _ => false,
        }
    }

    /// Return true if this level allows a user to contribute snippets to
    /// the story.
    pub fn grants_write(&self) -> (r: bool)
        ensures
            r == self.spec_grants_write(),
    {
        match *self {
            AccessLevel::Writer | AccessLevel::Owner => true,
            _ => false,
        }
    }

    /// Return true if a user with this level may grant and revoke access,
    /// publish the story, set the title, or delete the story entirely.
    pub fn grants_admin(&self) -> (r: bool)
        ensures
            r == self.spec_grants_admin(),
    {
        match *self {
            AccessLevel::Owner => true,
            _ => false,
        }
    }

    /// Return a new `AccessLevel` that grants at least `Reader` access,
    /// but preserves higher access levels if granted.
    pub fn upgrade_to_read(self) -> (r: AccessLevel)
        ensures
            r == self.spec_upgrade_to_read(),
    {
        match self {
            AccessLevel::NoAccess => AccessLevel::Reader,
            _ => self,
        }
    }
}

/// One stored grant: the level `user_id` holds on `story_id`.
#[derive(Clone, Copy, Debug, PartialEq, Eq, Structural)]
pub struct AccessGrant {
    pub story_id: i64,
    pub user_id: i64,
    pub level: AccessLevel,
}

/// The table that associates a level of access to a `Story` with a
/// `User`: at most one row per (story, user) pair, and a pair without a
/// row has `NoAccess`, so that absence and `NoAccess` are
/// interchangeable.
pub struct StoryAccess {
    pub rows: Vec<AccessGrant>,
}

impl StoryAccess {
    /// Row uniqueness: at most one grant per (story, user) pair.
    pub open spec fn wf(self) -> bool {
        forall|i: int, j: int|
            0 <= i < j < self.rows@.len() ==> !(#[trigger] self.rows@[i].story_id == #[trigger] self.rows@[j].story_id
                && self.rows@[i].user_id == self.rows@[j].user_id)
    }

    /// True when a grant row for the pair is stored.
    pub open spec fn has_grant(self, story_id: i64, user_id: i64) -> bool {
        exists|i: int|
            0 <= i < self.rows@.len() && #[trigger] self.rows@[i].story_id == story_id
                && self.rows@[i].user_id == user_id
    }

    /// The index of the grant row for the pair (meaningful only when
    /// `has_grant` holds and the table is well formed).
    pub open spec fn grant_index(self, story_id: i64, user_id: i64) -> int {
        choose|i: int|
            0 <= i < self.rows@.len() && #[trigger] self.rows@[i].story_id == story_id
                && self.rows@[i].user_id == user_id
    }

    /// The level stored for the pair; `NoAccess` when no row is stored.
    pub open spec fn spec_level(self, story_id: i64, user_id: i64) -> AccessLevel {
        if self.has_grant(story_id, user_id) {
            self.rows@[self.grant_index(story_id, user_id)].level
        } else {
            AccessLevel::NoAccess
        }
    }

    /// The level stored for a possibly unpersisted user: a user without
    /// an identifier can have no grant row.
    pub open spec fn spec_base_level(self, story_id: i64, user_id: Option<i64>) -> AccessLevel {
        match user_id {
            Some(uid) => self.spec_level(story_id, uid),
            None => AccessLevel::NoAccess,
        }
    }

    /// An empty table.
    pub fn new() -> (r: StoryAccess)
        ensures
            r.wf(),
            r.rows@.len() == 0,
            forall|s: i64, u: i64| !(#[trigger] r.has_grant(s, u)),
    {
        StoryAccess { rows: Vec::new() }
    }

    /// Locate the row for a pair, if any.
    fn find(&self, story_id: i64, user_id: i64) -> (r: Option<usize>)
        requires
            self.wf(),
        ensures
            match r {
                Some(i) => {
                    &&& i < self.rows@.len()
                    &&& self.rows@[i as int].story_id == story_id
                    &&& self.rows@[i as int].user_id == user_id
                    &&& self.has_grant(story_id, user_id)
                    &&& self.grant_index(story_id, user_id) == i as int
                    &&& self.spec_level(story_id, user_id) == self.rows@[i as int].level
                },
                None => !self.has_grant(story_id, user_id),
            },
    {
        let mut idx: usize = 0;
        while idx < self.rows.len()
            invariant
                self.wf(),
                idx <= self.rows@.len(),
                forall|k: int|
                    0 <= k < idx ==> !(#[trigger] self.rows@[k].story_id == story_id
                        && self.rows@[k].user_id == user_id),
            decreases self.rows@.len() - idx,
        {
            let row = self.rows[idx];
            if row.story_id == story_id && row.user_id == user_id {
                proof {
                    lemma_grant_at(*self, idx as int);
                }
                return Some(idx);
            }
            idx += 1;
        }
        None
    }

    /// Grant a `User` access to a `Story` at a specified level. If the
    /// level is `NoAccess`, any stored access is removed instead, so that
    /// later lookups see plain absence. A user that was never persisted
    /// has no row to remove and cannot be granted one.
    pub fn grant(&mut self, story: &Story, user: &User, level: &AccessLevel) -> (r: FictResult<()>)
        requires
            old(self).wf(),
        ensures
            final(self).wf(),
            match user.id {
                None => {
                    &&& *final(self) == *old(self)
                    &&& if level is NoAccess {
                        r is Ok
                    } else {
                        r matches Err(e) && e is Message
                    }
                },
                Some(uid) => {
                    &&& r is Ok
                    &&& final(self).has_grant(story.id, uid) == !(level is NoAccess)
                    &&& final(self).spec_level(story.id, uid) == (
                        if level is NoAccess { AccessLevel::NoAccess } else { *level }
                    )
                    &&& forall|s: i64, u: i64|
                        !(s == story.id && u == uid) ==> #[trigger] final(self).spec_level(s, u)
                            == old(self).spec_level(s, u) && final(self).has_grant(s, u) == old(
                            self,
                        ).has_grant(s, u)
                },
            },
    {
        let uid = match user.id {
            Some(uid) => uid,
            None => {
                return match level {
                    AccessLevel::NoAccess => Ok(()),
                    _ => Err(fict_err("A user must be persisted to receive an access grant")),
                };
            },
        };

        let found = self.find(story.id, uid);

        match level {
            AccessLevel::NoAccess => {
                // Revoke any existing access instead of storing a sentinel.
                if let Some(i) = found {
                    let ghost pre = *self;
                    self.rows.remove(i);
                    proof {
                        lemma_remove_preserves(pre, *self, i as int);
                    }
                }
                Ok(())
            },
            _ => {
                match found {
                    Some(i) => {
                        let ghost pre = *self;
                        let row = &mut self.rows[i];
                        row.level = *level;
                        proof {
                            lemma_update_level_preserves(pre, *self, i as int);
                        }
                    },
                    None => {
                        let ghost pre = *self;
                        self.rows.push(AccessGrant { story_id: story.id, user_id: uid, level: *level });
                        proof {
                            lemma_push_preserves(pre, *self);
                        }
                    },
                }
                Ok(())
            },
        }
    }

    /// Determine the current access level that a `User` has on a `Story`,
    /// before any published/world-readable upgrade.
    pub(crate) fn access_for(&self, user: &User, story: &Story) -> (r: AccessLevel)
        requires
            self.wf(),
        ensures
            r == self.spec_base_level(story.id, user.id),
    {
        match user.id {
            Some(uid) => {
                match self.find(story.id, uid) {
                    Some(i) => self.rows[i].level,
                    None => AccessLevel::NoAccess,
                }
            },
            None => AccessLevel::NoAccess,
        }
    }
}

/// A stored row is the unique row of its pair: the table's lookup spec
/// functions land exactly on it.
pub proof fn lemma_grant_at(t: StoryAccess, i: int)
    requires
        t.wf(),
        0 <= i < t.rows@.len(),
    ensures
        t.has_grant(t.rows@[i].story_id, t.rows@[i].user_id),
        t.grant_index(t.rows@[i].story_id, t.rows@[i].user_id) == i,
        t.spec_level(t.rows@[i].story_id, t.rows@[i].user_id) == t.rows@[i].level,
{
    let sid = t.rows@[i].story_id;
    let uid = t.rows@[i].user_id;
    assert(t.has_grant(sid, uid));
    let j = t.grant_index(sid, uid);
    assert(0 <= j < t.rows@.len() && t.rows@[j].story_id == sid && t.rows@[j].user_id == uid);
    if j != i {
        assert(!(t.rows@[if i < j { i } else { j }].story_id == t.rows@[if i < j { j } else { i }].story_id
            && t.rows@[if i < j { i } else { j }].user_id == t.rows@[if i < j { j } else { i }].user_id));
        assert(false);
    }
}

/// Removing the unique row of a pair leaves every other pair's lookup
/// unchanged and erases that pair's grant.
proof fn lemma_remove_preserves(pre: StoryAccess, post: StoryAccess, i: int)
    requires
        pre.wf(),
        0 <= i < pre.rows@.len(),
        post.rows@ == pre.rows@.remove(i),
    ensures
        post.wf(),
        !post.has_grant(pre.rows@[i].story_id, pre.rows@[i].user_id),
        forall|s: i64, u: i64|
            !(s == pre.rows@[i].story_id && u == pre.rows@[i].user_id) ==> #[trigger] post.spec_level(s, u)
                == pre.spec_level(s, u) && post.has_grant(s, u) == pre.has_grant(s, u),
{
    let sid = pre.rows@[i].story_id;
    let uid = pre.rows@[i].user_id;
    assert(forall|k: int|
        0 <= k < post.rows@.len() ==> #[trigger] post.rows@[k] == (
        if k < i {
            pre.rows@[k]
        } else {
            pre.rows@[k + 1]
        }));
    assert(post.wf());
    assert forall|k: int| 0 <= k < post.rows@.len() implies !(#[trigger] post.rows@[k].story_id == sid
        && post.rows@[k].user_id == uid) by {
        let k0 = if k < i { k } else { k + 1 };
        if post.rows@[k].story_id == sid && post.rows@[k].user_id == uid {
            lemma_grant_at(pre, k0);
            lemma_grant_at(pre, i);
            assert(false);
        }
    }
    assert forall|s: i64, u: i64| !(s == sid && u == uid) implies #[trigger] post.spec_level(s, u)
        == pre.spec_level(s, u) && post.has_grant(s, u) == pre.has_grant(s, u) by {
        if pre.has_grant(s, u) {
            let k0 = pre.grant_index(s, u);
            assert(0 <= k0 < pre.rows@.len() && pre.rows@[k0].story_id == s && pre.rows@[k0].user_id == u);
            assert(k0 != i);
            let k1 = if k0 < i {
                k0
            } else {
                k0 - 1
            };
            assert(post.rows@[k1] == pre.rows@[k0]);
            lemma_grant_at(pre, k0);
            lemma_grant_at(post, k1);
        } else {
            if post.has_grant(s, u) {
                let k1 = post.grant_index(s, u);
                let k0 = if k1 < i { k1 } else { k1 + 1 };
                lemma_grant_at(pre, k0);
                assert(false);
            }
        }
    }
}

/// Rewriting the level inside the unique row of a pair leaves every other
/// pair's lookup unchanged.
proof fn lemma_update_level_preserves(pre: StoryAccess, post: StoryAccess, i: int)
    requires
        pre.wf(),
        0 <= i < pre.rows@.len(),
        post.rows@.len() == pre.rows@.len(),
        post.rows@[i].story_id == pre.rows@[i].story_id,
        post.rows@[i].user_id == pre.rows@[i].user_id,
        forall|k: int| 0 <= k < pre.rows@.len() && k != i ==> #[trigger] post.rows@[k] == pre.rows@[k],
    ensures
        post.wf(),
        post.has_grant(pre.rows@[i].story_id, pre.rows@[i].user_id),
        post.spec_level(pre.rows@[i].story_id, pre.rows@[i].user_id) == post.rows@[i].level,
        forall|s: i64, u: i64|
            !(s == pre.rows@[i].story_id && u == pre.rows@[i].user_id) ==> #[trigger] post.spec_level(s, u)
                == pre.spec_level(s, u) && post.has_grant(s, u) == pre.has_grant(s, u),
{
    assert forall|a: int, b: int| 0 <= a < b < post.rows@.len() implies !(#[trigger] post.rows@[a].story_id
        == #[trigger] post.rows@[b].story_id && post.rows@[a].user_id == post.rows@[b].user_id) by {
        assert(post.rows@[a].story_id == pre.rows@[a].story_id && post.rows@[a].user_id == pre.rows@[a].user_id);
        assert(post.rows@[b].story_id == pre.rows@[b].story_id && post.rows@[b].user_id == pre.rows@[b].user_id);
    }
    lemma_grant_at(post, i);
    assert forall|s: i64, u: i64| !(s == pre.rows@[i].story_id && u == pre.rows@[i].user_id) implies
        #[trigger] post.spec_level(s, u) == pre.spec_level(s, u) && post.has_grant(s, u) == pre.has_grant(s, u) by {
        if pre.has_grant(s, u) {
            let k0 = pre.grant_index(s, u);
            lemma_grant_at(pre, k0);
            assert(k0 != i);
            assert(post.rows@[k0] == pre.rows@[k0]);
            lemma_grant_at(post, k0);
        } else {
            if post.has_grant(s, u) {
                let k1 = post.grant_index(s, u);
                assert(k1 != i);
                assert(post.rows@[k1] == pre.rows@[k1]);
                lemma_grant_at(pre, k1);
                assert(false);
            }
        }
    }
}

/// Appending a row for a pair that has no row yet leaves every other
/// pair's lookup unchanged.
proof fn lemma_push_preserves(pre: StoryAccess, post: StoryAccess)
    requires
        pre.wf(),
        post.rows@.len() == pre.rows@.len() + 1,
        forall|k: int| 0 <= k < pre.rows@.len() ==> #[trigger] post.rows@[k] == pre.rows@[k],
        !pre.has_grant(
            post.rows@[post.rows@.len() - 1].story_id,
            post.rows@[post.rows@.len() - 1].user_id,
        ),
    ensures
        post.wf(),
        post.has_grant(
            post.rows@[post.rows@.len() - 1].story_id,
            post.rows@[post.rows@.len() - 1].user_id,
        ),
        post.spec_level(
            post.rows@[post.rows@.len() - 1].story_id,
            post.rows@[post.rows@.len() - 1].user_id,
        ) == post.rows@[post.rows@.len() - 1].level,
        forall|s: i64, u: i64|
            !(s == post.rows@[post.rows@.len() - 1].story_id && u == post.rows@[post.rows@.len() - 1].user_id)
                ==> #[trigger] post.spec_level(s, u) == pre.spec_level(s, u) && post.has_grant(s, u)
                == pre.has_grant(s, u),
{
    let n = pre.rows@.len() as int;
    let sid = post.rows@[n].story_id;
    let uid = post.rows@[n].user_id;
    assert forall|a: int, b: int| 0 <= a < b < post.rows@.len() implies !(#[trigger] post.rows@[a].story_id
        == #[trigger] post.rows@[b].story_id && post.rows@[a].user_id == post.rows@[b].user_id) by {
        if b < n {
            assert(post.rows@[a] == pre.rows@[a] && post.rows@[b] == pre.rows@[b]);
        } else {
            if post.rows@[a].story_id == sid && post.rows@[a].user_id == uid {
                assert(pre.has_grant(sid, uid));
                assert(false);
            }
        }
    }
    lemma_grant_at(post, n);
    assert forall|s: i64, u: i64| !(s == sid && u == uid) implies #[trigger] post.spec_level(s, u)
        == pre.spec_level(s, u) && post.has_grant(s, u) == pre.has_grant(s, u) by {
        if pre.has_grant(s, u) {
            let k0 = pre.grant_index(s, u);
            lemma_grant_at(pre, k0);
            assert(post.rows@[k0] == pre.rows@[k0]);
            lemma_grant_at(post, k0);
        } else {
            if post.has_grant(s, u) {
                let k1 = post.grant_index(s, u);
                assert(k1 != n);
                assert(post.rows@[k1] == pre.rows@[k1]);
                lemma_grant_at(pre, k1);
                assert(false);
            }
        }
    }
}

} // verus!
