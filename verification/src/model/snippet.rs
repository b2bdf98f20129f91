//! Single submissions to ongoing stories.

use vstd::prelude::*;
use crate::error::{FictError, FictResult, fict_err};
use crate::model::Database;
use crate::model::story::{Story, fresh_story};
use crate::model::user::User;

verus! {

/// Single submission to an ongoing `Story`.
///
/// `ordinal` comes from one global, strictly increasing sequence, so the
/// largest ordinal among a story's snippets names its latest submission.
#[derive(Debug)]
pub struct Snippet {
    pub id: i64,
    pub ordinal: i32,
    pub user_id: i64,
    pub story_id: i64,
    pub creation_time: i64,
    pub content: String,
}

impl Clone for Snippet {
    fn clone(&self) -> (r: Self)
        ensures
            r == *self,
    {
        Snippet {
            id: self.id,
            ordinal: self.ordinal,
            user_id: self.user_id,
            story_id: self.story_id,
            creation_time: self.creation_time,
            content: self.content.clone(),
        }
    }
}

/// Everything of the store except its snippet table is unchanged.
pub open spec fn same_tables_except_snippets(pre: Database, post: Database) -> bool {
    &&& post.stories == pre.stories
    &&& post.users == pre.users
    &&& post.sessions == pre.sessions
    &&& post.access == pre.access
    &&& post.attempts == pre.attempts
    &&& post.next_story_id == pre.next_story_id
    &&& post.next_user_id == pre.next_user_id
    &&& post.next_session_id == pre.next_session_id
}

/// The conditions under which beginning a story is refused outright:
/// an unpersisted owner, or an exhausted story id sequence.
pub open spec fn begin_rejected(pre: Database, owner: User) -> bool {
    ||| owner.id is None
    ||| !pre.has_user(owner.id->0)
    ||| pre.next_story_id == i64::MAX
}

/// True when no further snippet row can be stored.
pub open spec fn snippet_sequence_exhausted(pre: Database) -> bool {
    pre.next_snippet_id == i64::MAX || pre.next_snippet_ordinal == i32::MAX
}

/// The snippet row that one successful contribution appends.
pub open spec fn appended_snippet(
    pre: Database,
    user_id: i64,
    story_id: i64,
    content: String,
    now: i64,
) -> Snippet {
    Snippet {
        id: pre.next_snippet_id,
        ordinal: pre.next_snippet_ordinal,
        user_id: user_id,
        story_id: story_id,
        creation_time: now,
        content: content,
    }
}

/// The store after a story was begun for `owner`, including its first
/// snippet when the snippet sequences could still supply a row (the
/// story and its owner grant stand either way, as they were committed
/// first).
pub open spec fn story_begun_with_snippet(
    pre: Database,
    post: Database,
    owner: User,
    content: String,
    now: i64,
) -> bool {
    let new_story_id = pre.next_story_id;
    let uid = owner.id->0;
    let story = fresh_story(new_story_id, now);
    let snip = appended_snippet(pre, uid, new_story_id, content, now);
    &&& post.spec_story(new_story_id) == Some(story)
    &&& forall|x: i64| x != new_story_id ==> #[trigger] post.spec_story(x) == pre.spec_story(x)
    &&& post.stories@.len() == pre.stories@.len() + 1
    &&& post.next_story_id == new_story_id + 1
    &&& post.access.has_grant(new_story_id, uid)
    &&& post.access.spec_level(new_story_id, uid) == crate::model::access::AccessLevel::Owner
    &&& forall|s: i64, u: i64|
        !(s == new_story_id && u == uid) ==> #[trigger] post.access.spec_level(s, u)
            == pre.access.spec_level(s, u) && post.access.has_grant(s, u) == pre.access.has_grant(
            s,
            u,
        )
    &&& post.users == pre.users
    &&& post.sessions == pre.sessions
    &&& post.attempts == pre.attempts
    &&& post.next_user_id == pre.next_user_id
    &&& post.next_session_id == pre.next_session_id
    &&& if snippet_sequence_exhausted(pre) {
        &&& post.snippets == pre.snippets
        &&& post.next_snippet_id == pre.next_snippet_id
        &&& post.next_snippet_ordinal == pre.next_snippet_ordinal
    } else {
        &&& post.snippets@ == pre.snippets@.push(snip)
        &&& post.next_snippet_id == pre.next_snippet_id + 1
        &&& post.next_snippet_ordinal == pre.next_snippet_ordinal + 1
    }
}

impl Snippet {
    /// Continue a `Story` in progress by storing a new snippet row for
    /// it. The snippet takes the next id and the next ordinal of their
    /// global sequences; recording that the contribution happened (the
    /// story's revision count) is the caller's separate step.
    pub fn contribute(
        db: &mut Database,
        story: &Story,
        contributor: &User,
        content: String,
        now: i64,
    ) -> (r: FictResult<Snippet>)
        requires
            old(db).wf(),
            contributor.id is Some,
        ensures
            final(db).wf(),
            ({
                let uid = contributor.id->0;
                if !old(db).has_user(uid) {
                    (r matches Err(e) && e is Message) && *final(db) == *old(db)
                } else if !old(db).has_story(story.id) {
                    (r matches Err(e) && e is Message) && *final(db) == *old(db)
                } else if old(db).next_snippet_id == i64::MAX || old(db).next_snippet_ordinal
                    == i32::MAX {
                    (r matches Err(e) && e is Message) && *final(db) == *old(db)
                } else {
                    let snip = appended_snippet(*old(db), uid, story.id, content, now);
                    &&& r == Ok::<Snippet, FictError>(snip)
                    &&& same_tables_except_snippets(*old(db), *final(db))
                    &&& final(db).snippets@ == old(db).snippets@.push(snip)
                    &&& final(db).next_snippet_id == old(db).next_snippet_id + 1
                    &&& final(db).next_snippet_ordinal == old(db).next_snippet_ordinal + 1
                }
            }),
    {
        let contributor_id = match contributor.id {
            Some(uid) => uid,
            None => {
                return Err(fict_err("A user must be persisted to contribute"));
            },
        };
        match db.find_user(contributor_id) {
            Some(_) => (),
            None => {
                return Err(fict_err("A user must be persisted to contribute"));
            },
        }
        match db.find_story(story.id) {
            Some(_) => (),
            None => {
                return Err(fict_err("A snippet needs an existing story"));
            },
        }
        if db.next_snippet_id == i64::MAX || db.next_snippet_ordinal == i32::MAX {
            return Err(fict_err("Snippet id sequence exhausted"));
        }
        let snippet = Snippet {
            id: db.next_snippet_id,
            ordinal: db.next_snippet_ordinal,
            user_id: contributor_id,
            story_id: story.id,
            creation_time: now,
            content: content,
        };
        let ghost pre = *db;
        let result = snippet.clone();
        db.snippets.push(snippet);
        db.next_snippet_id = db.next_snippet_id + 1;
        db.next_snippet_ordinal = db.next_snippet_ordinal + 1;
        proof {
            let n = pre.snippets@.len() as int;
            assert forall|a: int, b: int| 0 <= a < b < db.snippets@.len() implies #[trigger] db.snippets@[a].ordinal
                < #[trigger] db.snippets@[b].ordinal by {
                if b < n {
                    assert(db.snippets@[a] == pre.snippets@[a] && db.snippets@[b] == pre.snippets@[b]);
                } else {
                    assert(db.snippets@[a] == pre.snippets@[a]);
                    assert(pre.snippets@[a].ordinal < pre.next_snippet_ordinal);
                }
            }
            assert forall|k: int| 0 <= k < db.snippets@.len() implies #[trigger] db.snippets@[k].id
                < db.next_snippet_id by {
                if k < n {
                    assert(db.snippets@[k] == pre.snippets@[k]);
                }
            }
            assert forall|k: int| 0 <= k < db.snippets@.len() implies #[trigger] db.snippets@[k].ordinal
                < db.next_snippet_ordinal by {
                if k < n {
                    assert(db.snippets@[k] == pre.snippets@[k]);
                }
            }
        }
        Ok(result)
    }

    /// Accept data to construct a snippet that begins a new `Story` in
    /// draft status: the story is created first (with its owner grant),
    /// then the snippet is stored against it.
    pub fn begin(db: &mut Database, owner: &User, content: String, now: i64) -> (r: FictResult<
        (Snippet, Story),
    >)
        requires
            old(db).wf(),
        ensures
            final(db).wf(),
            begin_rejected(*old(db), *owner) ==> (r matches Err(e) && e is Message) && *final(db)
                == *old(db),
            !begin_rejected(*old(db), *owner) ==> {
                &&& story_begun_with_snippet(*old(db), *final(db), *owner, content, now)
                &&& if snippet_sequence_exhausted(*old(db)) {
                    r matches Err(e) && e is Message
                } else {
                    r == Ok::<(Snippet, Story), FictError>(
                        (
                            appended_snippet(
                                *old(db),
                                owner.id->0,
                                old(db).next_story_id,
                                content,
                                now,
                            ),
                            fresh_story(old(db).next_story_id, now),
                        ),
                    )
                }
            },
    {
        let story = match Story::begin(db, owner, now) {
            Ok(s) => s,
            Err(e) => {
                return Err(e);
            },
        };
        let ghost mid = *db;
        let r = match Self::contribute(db, &story, owner, content, now) {
            Ok(snippet) => Ok((snippet, story)),
            Err(e) => Err(e),
        };
        proof {
            // The contribution touched only the snippet table, so every
            // story and user lookup still reads as it did after the
            // story was created.
            crate::model::lemma_lookup_congruence(mid, *db);
        }
        r
    }

    /// Return the most recent snippet associated with a given story: the
    /// stored row with the story's largest ordinal. A story without any
    /// snippet rows is a storage-level fault.
    pub fn most_recent(db: &Database, story: &Story) -> (r: FictResult<Snippet>)
        requires
            db.wf(),
        ensures
            match db.spec_latest_snippet(story.id) {
                Some(s) => r == Ok::<Snippet, FictError>(s),
                None => r matches Err(e) && e is Message,
            },
    {
        proof {
            assert(db.snippets@.subrange(0, db.snippets@.len() as int) =~= db.snippets@);
        }
        let mut idx: usize = db.snippets.len();
        while idx > 0
            invariant
                idx <= db.snippets@.len(),
                Database::latest_snippet_index(db.snippets@, story.id)
                    == Database::latest_snippet_index(
                    db.snippets@.subrange(0, idx as int),
                    story.id,
                ),
            decreases idx,
        {
            if db.snippets[idx - 1].story_id == story.id {
                proof {
                    assert(db.snippets@.subrange(0, idx as int)[idx - 1] == db.snippets@[idx - 1]);
                }
                return Ok(db.snippets[idx - 1].clone());
            }
            proof {
                assert(db.snippets@.subrange(0, idx as int).drop_last() =~= db.snippets@.subrange(
                    0,
                    idx as int - 1,
                ));
            }
            idx = idx - 1;
        }
        Err(fict_err("Expected a snippet row, but none was found"))
    }
}

} // verus!
