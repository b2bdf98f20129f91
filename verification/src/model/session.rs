//! Create and manage active user sessions.

use vstd::prelude::*;
use crate::error::{FictError, FictResult, fict_err};
use crate::model::Database;
use crate::model::lemma_session_at;
use crate::model::user::User;

verus! {

/// An active login of the site, tied to one user by an API token.
#[derive(Clone, Copy, Debug, PartialEq, Eq, Structural)]
pub struct Session {
    pub id: i64,
    pub token: i64,
    pub user_id: i64,
}

/// Everything of the store except its session table is unchanged.
pub open spec fn same_tables_except_sessions(pre: Database, post: Database) -> bool {
    &&& post.stories == pre.stories
    &&& post.users == pre.users
    &&& post.snippets == pre.snippets
    &&& post.access == pre.access
    &&& post.attempts == pre.attempts
    &&& post.next_story_id == pre.next_story_id
    &&& post.next_user_id == pre.next_user_id
    &&& post.next_snippet_id == pre.next_snippet_id
    &&& post.next_snippet_ordinal == pre.next_snippet_ordinal
}

/// Appending a session row with a token no other row holds leaves every
/// other token's lookup unchanged.
pub(crate) proof fn lemma_session_push(pre: Database, post: Database)
    requires
        pre.sessions_wf(),
        post.sessions@.len() == pre.sessions@.len() + 1,
        forall|k: int| 0 <= k < pre.sessions@.len() ==> #[trigger] post.sessions@[k] == pre.sessions@[k],
        post.sessions@[post.sessions@.len() - 1].id == pre.next_session_id,
        !pre.has_session(post.sessions@[post.sessions@.len() - 1].token),
        post.next_session_id > pre.next_session_id,
    ensures
        post.sessions_wf(),
        post.spec_session(post.sessions@[post.sessions@.len() - 1].token) == Some(
            post.sessions@[post.sessions@.len() - 1],
        ),
        forall|t: i64|
            t != post.sessions@[post.sessions@.len() - 1].token ==> #[trigger] post.spec_session(t)
                == pre.spec_session(t),
{
    let n = pre.sessions@.len() as int;
    let token = post.sessions@[n].token;
    assert forall|k: int| 0 <= k < post.sessions@.len() implies #[trigger] post.sessions@[k].id
        < post.next_session_id by {
        if k < n {
            assert(post.sessions@[k] == pre.sessions@[k]);
        }
    }
    assert forall|a: int, b: int| 0 <= a < b < post.sessions@.len() implies #[trigger] post.sessions@[a].token
        != #[trigger] post.sessions@[b].token by {
        if b < n {
            assert(post.sessions@[a] == pre.sessions@[a] && post.sessions@[b] == pre.sessions@[b]);
        } else {
            if post.sessions@[a].token == token {
                assert(pre.has_session(token));
                assert(false);
            }
        }
    }
    lemma_session_at(post, n);
    assert forall|t: i64| t != token implies #[trigger] post.spec_session(t) == pre.spec_session(t) by {
        if pre.has_session(t) {
            let k0 = pre.session_index(t);
            lemma_session_at(pre, k0);
            assert(post.sessions@[k0] == pre.sessions@[k0]);
            lemma_session_at(post, k0);
        } else {
            if post.has_session(t) {
                let k1 = post.session_index(t);
                assert(k1 != n);
                assert(post.sessions@[k1] == pre.sessions@[k1]);
                lemma_session_at(pre, k1);
                assert(false);
            }
        }
    }
}

impl Session {
    /// Assign a new session, under the given API token, to a logged-in
    /// user. The token is drawn by the caller (the service draws it at
    /// random); a token already in use is refused, as a unique index
    /// would refuse it.
    pub fn assign(db: &mut Database, u: &User, token: i64) -> (r: FictResult<Session>)
        requires
            old(db).wf(),
            u.id is Some,
        ensures
            final(db).wf(),
            ({
                let uid = u.id->0;
                if !old(db).has_user(uid) {
                    (r matches Err(e) && e is Message) && *final(db) == *old(db)
                } else if old(db).has_session(token) {
                    (r matches Err(e) && e is Message) && *final(db) == *old(db)
                } else if old(db).next_session_id == i64::MAX {
                    (r matches Err(e) && e is Message) && *final(db) == *old(db)
                } else {
                    &&& r == Ok::<Session, FictError>(
                        Session { id: old(db).next_session_id, token: token, user_id: uid },
                    )
                    &&& same_tables_except_sessions(*old(db), *final(db))
                    &&& final(db).sessions@.len() == old(db).sessions@.len() + 1
                    &&& final(db).next_session_id == old(db).next_session_id + 1
                    &&& final(db).spec_session(token) == Some(
                        Session { id: old(db).next_session_id, token: token, user_id: uid },
                    )
                    &&& forall|t: i64|
                        t != token ==> #[trigger] final(db).spec_session(t) == old(db).spec_session(
                            t,
                        )
                }
            }),
    {
        let uid = match u.id {
            Some(uid) => uid,
            None => {
                return Err(fict_err("A user must be persisted to receive a session"));
            },
        };
        match db.find_user(uid) {
            Some(_) => (),
            None => {
                return Err(fict_err("A user must be persisted to receive a session"));
            },
        }
        match db.find_session(token) {
            Some(_) => {
                return Err(fict_err("Session token is already in use"));
            },
            None => (),
        }
        if db.next_session_id == i64::MAX {
            return Err(fict_err("Session id sequence exhausted"));
        }
        let session = Session { id: db.next_session_id, token: token, user_id: uid };
        let ghost pre = *db;
        db.sessions.push(session);
        db.next_session_id = db.next_session_id + 1;
        proof {
            lemma_session_push(pre, *db);
        }
        Ok(session)
    }

    /// Given an API token from a request, locate the session it names,
    /// if any.
    pub fn validate(db: &Database, token: i64) -> (r: Option<Session>)
        requires
            db.wf(),
        ensures
            r == db.spec_session(token),
    {
        match db.find_session(token) {
            Some(i) => Some(db.sessions[i]),
            None => None,
        }
    }

    /// Access the `User` this session belongs to; a missing row is a
    /// storage-level fault.
    pub fn user(&self, db: &Database) -> (r: FictResult<User>)
        requires
            db.wf(),
        ensures
            match db.spec_user(self.user_id) {
                Some(u) => r == Ok::<User, FictError>(u),
                None => r matches Err(e) && e is Message,
            },
    {
        User::with_id(db, self.user_id)
    }
}

} // verus!
