//! Data model: stories, users, sessions, snippets, access grants and
//! cooldown records, together with the in-memory record store that owns
//! them.

use vstd::prelude::*;

mod access;
mod cooldown;
mod session;
mod snippet;
mod story;
mod user;

pub use access::{AccessGrant, AccessLevel, StoryAccess};
pub use cooldown::{AttemptRecord, ContributionAttempt, cooldown_permits};
pub use session::{Session, same_tables_except_sessions};
pub use snippet::{
    Snippet, appended_snippet, begin_rejected, same_tables_except_snippets,
    snippet_sequence_exhausted, story_begun_with_snippet,
};
pub use story::{
    AcquireOutcome, DEFAULT_LOCK_DURATION_S, Story, acquire_outcome, acquire_rel, fresh_story,
    same_tables_except_stories, story_access_for, story_replaced,
};
pub use user::{User, same_tables_except_users};

verus! {

/// True when the row sequence holds a story with this identifier.
pub open spec fn seq_has_story(stories: Seq<Story>, id: i64) -> bool {
    exists|i: int| 0 <= i < stories.len() && #[trigger] stories[i].id == id
}

/// The index of the story with this identifier.
pub open spec fn seq_story_index(stories: Seq<Story>, id: i64) -> int {
    choose|i: int| 0 <= i < stories.len() && #[trigger] stories[i].id == id
}

/// True when the row sequence holds a user with this identifier.
pub open spec fn seq_has_user(users: Seq<User>, id: i64) -> bool {
    exists|i: int| 0 <= i < users.len() && #[trigger] users[i].id == Some(id)
}

/// The index of the user with this identifier.
pub open spec fn seq_user_index(users: Seq<User>, id: i64) -> int {
    choose|i: int| 0 <= i < users.len() && #[trigger] users[i].id == Some(id)
}

/// True when the row sequence holds a user with this email address.
pub open spec fn seq_has_user_email(users: Seq<User>, email: Seq<char>) -> bool {
    exists|i: int| 0 <= i < users.len() && #[trigger] users[i].email@ == email
}

/// The index of the user with this email address.
pub open spec fn seq_user_email_index(users: Seq<User>, email: Seq<char>) -> int {
    choose|i: int| 0 <= i < users.len() && #[trigger] users[i].email@ == email
}

/// True when the row sequence holds a session with this token.
pub open spec fn seq_has_session(sessions: Seq<Session>, token: i64) -> bool {
    exists|i: int| 0 <= i < sessions.len() && #[trigger] sessions[i].token == token
}

/// The index of the session with this token.
pub open spec fn seq_session_index(sessions: Seq<Session>, token: i64) -> int {
    choose|i: int| 0 <= i < sessions.len() && #[trigger] sessions[i].token == token
}

/// The record store: every table the service owns, together with the id
/// sequences that new rows draw from.
///
/// Callers see one operation at a time against this store; operations on
/// the same story are totally ordered (the stand-in for row-level
/// locking), so each operation may read, decide and write without
/// interference.
pub struct Database {
    pub stories: Vec<Story>,
    pub users: Vec<User>,
    pub sessions: Vec<Session>,
    pub snippets: Vec<Snippet>,
    pub access: StoryAccess,
    pub attempts: ContributionAttempt,
    pub next_story_id: i64,
    pub next_user_id: i64,
    pub next_session_id: i64,
    pub next_snippet_id: i64,
    pub next_snippet_ordinal: i32,
}

impl Database {
    /// Story rows: unique identifiers below the id sequence, and lock
    /// fields always set or cleared together.
    pub open spec fn stories_wf(self) -> bool {
        &&& forall|i: int, j: int|
            0 <= i < j < self.stories@.len() ==> #[trigger] self.stories@[i].id != #[trigger] self.stories@[j].id
        &&& forall|i: int| 0 <= i < self.stories@.len() ==> #[trigger] self.stories@[i].id < self.next_story_id
        &&& forall|i: int| 0 <= i < self.stories@.len() ==> (#[trigger] self.stories@[i]).lock_consistent()
    }

    /// User rows: persisted (identifier assigned below the id sequence),
    /// unique identifiers, unique email addresses.
    pub open spec fn users_wf(self) -> bool {
        &&& forall|i: int|
            0 <= i < self.users@.len() ==> (#[trigger] self.users@[i]).id is Some
                && self.users@[i].id->0 < self.next_user_id
        &&& forall|i: int, j: int|
            0 <= i < j < self.users@.len() ==> #[trigger] self.users@[i].id != #[trigger] self.users@[j].id
        &&& forall|i: int, j: int|
            0 <= i < j < self.users@.len() ==> #[trigger] self.users@[i].email@ != #[trigger] self.users@[j].email@
    }

    /// Session rows: identifiers below the id sequence and unique tokens.
    pub open spec fn sessions_wf(self) -> bool {
        &&& forall|i: int|
            0 <= i < self.sessions@.len() ==> #[trigger] self.sessions@[i].id < self.next_session_id
        &&& forall|i: int, j: int|
            0 <= i < j < self.sessions@.len() ==> #[trigger] self.sessions@[i].token != #[trigger] self.sessions@[j].token
    }

    /// Snippet rows: identifiers below the id sequence, and ordinals
    /// strictly increasing in insertion order and below the ordinal
    /// sequence.
    pub open spec fn snippets_wf(self) -> bool {
        &&& forall|i: int|
            0 <= i < self.snippets@.len() ==> #[trigger] self.snippets@[i].id < self.next_snippet_id
        &&& forall|i: int, j: int|
            0 <= i < j < self.snippets@.len() ==> #[trigger] self.snippets@[i].ordinal < #[trigger] self.snippets@[j].ordinal
        &&& forall|i: int|
            0 <= i < self.snippets@.len() ==> #[trigger] self.snippets@[i].ordinal < self.next_snippet_ordinal
    }

    /// The store's whole invariant.
    pub open spec fn wf(self) -> bool {
        &&& self.stories_wf()
        &&& self.users_wf()
        &&& self.sessions_wf()
        &&& self.snippets_wf()
        &&& self.access.wf()
        &&& self.attempts.wf()
    }

    /// True when a story with this identifier is stored.
    pub open spec fn has_story(self, id: i64) -> bool {
        seq_has_story(self.stories@, id)
    }

    /// The index of the story with this identifier (meaningful only when
    /// `has_story` holds and the store is well formed).
    pub open spec fn story_index(self, id: i64) -> int {
        seq_story_index(self.stories@, id)
    }

    /// The stored story with this identifier, if any.
    pub open spec fn spec_story(self, id: i64) -> Option<Story> {
        if seq_has_story(self.stories@, id) {
            Some(self.stories@[seq_story_index(self.stories@, id)])
        } else {
            None
        }
    }

    /// True when a user with this identifier is stored.
    pub open spec fn has_user(self, id: i64) -> bool {
        seq_has_user(self.users@, id)
    }

    /// The index of the user with this identifier (meaningful only when
    /// `has_user` holds and the store is well formed).
    pub open spec fn user_index(self, id: i64) -> int {
        seq_user_index(self.users@, id)
    }

    /// The stored user with this identifier, if any.
    pub open spec fn spec_user(self, id: i64) -> Option<User> {
        if seq_has_user(self.users@, id) {
            Some(self.users@[seq_user_index(self.users@, id)])
        } else {
            None
        }
    }

    /// True when a user with this email address is stored.
    pub open spec fn has_user_email(self, email: Seq<char>) -> bool {
        seq_has_user_email(self.users@, email)
    }

    /// The index of the user with this email address (meaningful only
    /// when `has_user_email` holds and the store is well formed).
    pub open spec fn user_email_index(self, email: Seq<char>) -> int {
        seq_user_email_index(self.users@, email)
    }

    /// The stored user with this email address, if any.
    pub open spec fn spec_user_by_email(self, email: Seq<char>) -> Option<User> {
        if seq_has_user_email(self.users@, email) {
            Some(self.users@[seq_user_email_index(self.users@, email)])
        } else {
            None
        }
    }

    /// True when a session with this token is stored.
    pub open spec fn has_session(self, token: i64) -> bool {
        seq_has_session(self.sessions@, token)
    }

    /// The index of the session with this token (meaningful only when
    /// `has_session` holds and the store is well formed).
    pub open spec fn session_index(self, token: i64) -> int {
        seq_session_index(self.sessions@, token)
    }

    /// The stored session with this token, if any.
    pub open spec fn spec_session(self, token: i64) -> Option<Session> {
        if seq_has_session(self.sessions@, token) {
            Some(self.sessions@[seq_session_index(self.sessions@, token)])
        } else {
            None
        }
    }

    /// The index of the latest stored snippet of a story: the last match
    /// in insertion order, which under `snippets_wf` also carries the
    /// story's largest ordinal.
    pub open spec fn latest_snippet_index(snippets: Seq<Snippet>, story_id: i64) -> Option<int>
        decreases snippets.len(),
    {
        if snippets.len() == 0 {
            None
        } else if snippets[snippets.len() - 1].story_id == story_id {
            Some(snippets.len() - 1)
        } else {
            Self::latest_snippet_index(snippets.drop_last(), story_id)
        }
    }

    /// The latest stored snippet of a story, if any.
    pub open spec fn spec_latest_snippet(self, story_id: i64) -> Option<Snippet> {
        match Self::latest_snippet_index(self.snippets@, story_id) {
            Some(i) => Some(self.snippets@[i]),
            None => None,
        }
    }

    /// An empty store. Identifier sequences start at 1, as a fresh
    /// relational store's would.
    pub fn new() -> (r: Database)
        ensures
            r.wf(),
            r.stories@.len() == 0,
            r.users@.len() == 0,
            r.sessions@.len() == 0,
            r.snippets@.len() == 0,
            r.access.rows@.len() == 0,
            r.attempts.rows@.len() == 0,
            forall|id: i64| !(#[trigger] r.has_story(id)),
            forall|id: i64| !(#[trigger] r.has_user(id)),
            forall|s: i64, u: i64| !(#[trigger] r.access.has_grant(s, u)),
            forall|s: i64, u: i64| !(#[trigger] r.attempts.has_attempt(s, u)),
            r.next_story_id == 1,
            r.next_user_id == 1,
    {
        Database {
            stories: Vec::new(),
            users: Vec::new(),
            sessions: Vec::new(),
            snippets: Vec::new(),
            access: StoryAccess::new(),
            attempts: ContributionAttempt::new(),
            next_story_id: 1,
            next_user_id: 1,
            next_session_id: 1,
            next_snippet_id: 1,
            next_snippet_ordinal: 1,
        }
    }

    /// Locate the story with this identifier, if any.
    pub(crate) fn find_story(&self, id: i64) -> (r: Option<usize>)
        requires
            self.stories_wf(),
        ensures
            match r {
                Some(i) => {
                    &&& i < self.stories@.len()
                    &&& self.stories@[i as int].id == id
                    &&& self.has_story(id)
                    &&& self.story_index(id) == i as int
                    &&& self.spec_story(id) == Some(self.stories@[i as int])
                },
                None => !self.has_story(id) && self.spec_story(id) is None,
            },
    {
        let mut idx: usize = 0;
        while idx < self.stories.len()
            invariant
                self.stories_wf(),
                idx <= self.stories@.len(),
                forall|k: int| 0 <= k < idx ==> #[trigger] self.stories@[k].id != id,
            decreases self.stories@.len() - idx,
        {
            if self.stories[idx].id == id {
                proof {
                    lemma_story_at(*self, idx as int);
                }
                return Some(idx);
            }
            idx += 1;
        }
        None
    }

    /// Locate the user with this identifier, if any.
    pub(crate) fn find_user(&self, id: i64) -> (r: Option<usize>)
        requires
            self.users_wf(),
        ensures
            match r {
                Some(i) => {
                    &&& i < self.users@.len()
                    &&& self.users@[i as int].id == Some(id)
                    &&& self.has_user(id)
                    &&& self.user_index(id) == i as int
                    &&& self.spec_user(id) == Some(self.users@[i as int])
                },
                None => !self.has_user(id) && self.spec_user(id) is None,
            },
    {
        let mut idx: usize = 0;
        while idx < self.users.len()
            invariant
                self.users_wf(),
                idx <= self.users@.len(),
                forall|k: int| 0 <= k < idx ==> #[trigger] self.users@[k].id != Some(id),
            decreases self.users@.len() - idx,
        {
            let matches_id = match self.users[idx].id {
                Some(uid) => uid == id,
                None => false,
            };
            if matches_id {
                proof {
                    lemma_user_at(*self, idx as int);
                }
                return Some(idx);
            }
            idx += 1;
        }
        None
    }

    /// Locate the user with this email address, if any.
    pub(crate) fn find_user_by_email(&self, email: &String) -> (r: Option<usize>)
        requires
            self.users_wf(),
        ensures
            match r {
                Some(i) => {
                    &&& i < self.users@.len()
                    &&& self.users@[i as int].email@ == email@
                    &&& self.has_user_email(email@)
                    &&& self.user_email_index(email@) == i as int
                    &&& self.spec_user_by_email(email@) == Some(self.users@[i as int])
                },
                None => !self.has_user_email(email@) && self.spec_user_by_email(email@) is None,
            },
    {
        let mut idx: usize = 0;
        while idx < self.users.len()
            invariant
                self.users_wf(),
                idx <= self.users@.len(),
                forall|k: int| 0 <= k < idx ==> #[trigger] self.users@[k].email@ != email@,
            decreases self.users@.len() - idx,
        {
            if self.users[idx].email.eq(email) {
                proof {
                    lemma_user_email_at(*self, idx as int);
                }
                return Some(idx);
            }
            idx += 1;
        }
        None
    }

    /// Locate the session with this token, if any.
    pub(crate) fn find_session(&self, token: i64) -> (r: Option<usize>)
        requires
            self.sessions_wf(),
        ensures
            match r {
                Some(i) => {
                    &&& i < self.sessions@.len()
                    &&& self.sessions@[i as int].token == token
                    &&& self.has_session(token)
                    &&& self.session_index(token) == i as int
                    &&& self.spec_session(token) == Some(self.sessions@[i as int])
                },
                None => !self.has_session(token) && self.spec_session(token) is None,
            },
    {
        let mut idx: usize = 0;
        while idx < self.sessions.len()
            invariant
                self.sessions_wf(),
                idx <= self.sessions@.len(),
                forall|k: int| 0 <= k < idx ==> #[trigger] self.sessions@[k].token != token,
            decreases self.sessions@.len() - idx,
        {
            if self.sessions[idx].token == token {
                proof {
                    lemma_session_at(*self, idx as int);
                }
                return Some(idx);
            }
            idx += 1;
        }
        None
    }
}

/// Lookups read only their own table: two stores that agree on a table
/// agree on every lookup into it. (The lookup spec functions delegate to
/// the seq-level functions above, so this is congruence, made explicit
/// for quantifier instantiation.)
pub proof fn lemma_lookup_congruence(a: Database, b: Database)
    ensures
        a.stories == b.stories ==> forall|x: i64| #[trigger] b.spec_story(x) == a.spec_story(x),
        a.users == b.users ==> forall|x: i64| #[trigger] b.spec_user(x) == a.spec_user(x),
        a.users == b.users ==> forall|e: Seq<char>|
            #[trigger] b.spec_user_by_email(e) == a.spec_user_by_email(e),
        a.sessions == b.sessions ==> forall|t: i64| #[trigger] b.spec_session(t) == a.spec_session(t),
        a.snippets == b.snippets ==> forall|s: i64|
            #[trigger] b.spec_latest_snippet(s) == a.spec_latest_snippet(s),
{
}

/// A stored story is the unique story of its identifier: the store's
/// lookup spec functions land exactly on it.
pub proof fn lemma_story_at(db: Database, i: int)
    requires
        db.stories_wf(),
        0 <= i < db.stories@.len(),
    ensures
        db.has_story(db.stories@[i].id),
        db.story_index(db.stories@[i].id) == i,
        db.spec_story(db.stories@[i].id) == Some(db.stories@[i]),
{
    let id = db.stories@[i].id;
    assert(db.has_story(id));
    let j = db.story_index(id);
    assert(0 <= j < db.stories@.len() && db.stories@[j].id == id);
    if j != i {
        assert(db.stories@[if i < j { i } else { j }].id != db.stories@[if i < j { j } else { i }].id);
        assert(false);
    }
}

/// A stored user is the unique user of its identifier.
pub proof fn lemma_user_at(db: Database, i: int)
    requires
        db.users_wf(),
        0 <= i < db.users@.len(),
    ensures
        db.users@[i].id matches Some(uid) && db.has_user(uid) && db.user_index(uid) == i
            && db.spec_user(uid) == Some(db.users@[i]),
{
    let uid = db.users@[i].id->0;
    assert(db.has_user(uid));
    let j = db.user_index(uid);
    assert(0 <= j < db.users@.len() && db.users@[j].id == Some(uid));
    if j != i {
        assert(db.users@[if i < j { i } else { j }].id != db.users@[if i < j { j } else { i }].id);
        assert(false);
    }
}

/// A stored user is the unique user of its email address.
pub proof fn lemma_user_email_at(db: Database, i: int)
    requires
        db.users_wf(),
        0 <= i < db.users@.len(),
    ensures
        db.has_user_email(db.users@[i].email@),
        db.user_email_index(db.users@[i].email@) == i,
        db.spec_user_by_email(db.users@[i].email@) == Some(db.users@[i]),
{
    let email = db.users@[i].email@;
    assert(db.has_user_email(email));
    let j = db.user_email_index(email);
    assert(0 <= j < db.users@.len() && db.users@[j].email@ == email);
    if j != i {
        assert(db.users@[if i < j { i } else { j }].email@ != db.users@[if i < j { j } else { i }].email@);
        assert(false);
    }
}

/// A stored session is the unique session of its token.
pub proof fn lemma_session_at(db: Database, i: int)
    requires
        db.sessions_wf(),
        0 <= i < db.sessions@.len(),
    ensures
        db.has_session(db.sessions@[i].token),
        db.session_index(db.sessions@[i].token) == i,
        db.spec_session(db.sessions@[i].token) == Some(db.sessions@[i]),
{
    let token = db.sessions@[i].token;
    assert(db.has_session(token));
    let j = db.session_index(token);
    assert(0 <= j < db.sessions@.len() && db.sessions@[j].token == token);
    if j != i {
        assert(db.sessions@[if i < j { i } else { j }].token != db.sessions@[if i < j { j } else { i }].token);
        assert(false);
    }
}

} // verus!
