//! A collaborative fiction user.

use vstd::prelude::*;
use crate::error::{FictError, FictResult, fict_err};
use crate::model::Database;
use crate::model::{lemma_user_at, lemma_user_email_at};

verus! {

/// Participant in the collaborative storytelling process.
///
/// `id` is `None` until the user has been persisted into the record
/// store, which assigns the identifier.
#[derive(Debug)]
pub struct User {
    pub id: Option<i64>,
    pub name: String,
    pub email: String,
}

impl Clone for User {
    fn clone(&self) -> (r: Self)
        ensures
            r == *self,
    {
        User { id: self.id, name: self.name.clone(), email: self.email.clone() }
    }
}

/// Everything of the store except its user table is unchanged.
pub open spec fn same_tables_except_users(pre: Database, post: Database) -> bool {
    &&& post.stories == pre.stories
    &&& post.sessions == pre.sessions
    &&& post.snippets == pre.snippets
    &&& post.access == pre.access
    &&& post.attempts == pre.attempts
    &&& post.next_story_id == pre.next_story_id
    &&& post.next_session_id == pre.next_session_id
    &&& post.next_snippet_id == pre.next_snippet_id
    &&& post.next_snippet_ordinal == pre.next_snippet_ordinal
}

/// Replacing the unique user row of an identifier, with the identifier
/// kept and the new email not taken by any other row, leaves every other
/// identifier's and email's lookup unchanged.
pub(crate) proof fn lemma_user_replace(pre: Database, post: Database, i: int)
    requires
        pre.users_wf(),
        0 <= i < pre.users@.len(),
        post.users@.len() == pre.users@.len(),
        post.users@[i].id == pre.users@[i].id,
        forall|k: int| 0 <= k < pre.users@.len() && k != i ==> #[trigger] post.users@[k] == pre.users@[k],
        forall|k: int|
            0 <= k < pre.users@.len() && k != i ==> #[trigger] pre.users@[k].email@ != post.users@[i].email@,
        post.next_user_id == pre.next_user_id,
    ensures
        post.users_wf(),
        post.spec_user(pre.users@[i].id->0) == Some(post.users@[i]),
        forall|x: i64| x != pre.users@[i].id->0 ==> #[trigger] post.spec_user(x) == pre.spec_user(x),
        post.spec_user_by_email(post.users@[i].email@) == Some(post.users@[i]),
        pre.users@[i].email@ != post.users@[i].email@ ==> !post.has_user_email(pre.users@[i].email@),
        forall|e: Seq<char>|
            e != pre.users@[i].email@ && e != post.users@[i].email@ ==> #[trigger] post.spec_user_by_email(e)
                == pre.spec_user_by_email(e),
{
    let uid = pre.users@[i].id->0;
    assert forall|k: int| 0 <= k < post.users@.len() implies (#[trigger] post.users@[k]).id is Some
        && post.users@[k].id->0 < post.next_user_id by {
        if k != i {
            assert(post.users@[k] == pre.users@[k]);
        }
    }
    assert forall|a: int, b: int| 0 <= a < b < post.users@.len() implies #[trigger] post.users@[a].id
        != #[trigger] post.users@[b].id by {
        assert(post.users@[a].id == pre.users@[a].id);
        assert(post.users@[b].id == pre.users@[b].id);
    }
    assert forall|a: int, b: int| 0 <= a < b < post.users@.len() implies #[trigger] post.users@[a].email@
        != #[trigger] post.users@[b].email@ by {
        if a != i && b != i {
            assert(post.users@[a] == pre.users@[a] && post.users@[b] == pre.users@[b]);
        }
    }
    lemma_user_at(post, i);
    lemma_user_email_at(post, i);
    assert forall|x: i64| x != uid implies #[trigger] post.spec_user(x) == pre.spec_user(x) by {
        if pre.has_user(x) {
            let k0 = pre.user_index(x);
            lemma_user_at(pre, k0);
            assert(k0 != i);
            assert(post.users@[k0] == pre.users@[k0]);
            lemma_user_at(post, k0);
        } else {
            if post.has_user(x) {
                let k1 = post.user_index(x);
                assert(k1 != i);
                assert(post.users@[k1] == pre.users@[k1]);
                lemma_user_at(pre, k1);
                assert(false);
            }
        }
    }
    if pre.users@[i].email@ != post.users@[i].email@ {
        if post.has_user_email(pre.users@[i].email@) {
            let k1 = post.user_email_index(pre.users@[i].email@);
            assert(0 <= k1 < post.users@.len() && post.users@[k1].email@ == pre.users@[i].email@);
            assert(k1 != i);
            assert(post.users@[k1] == pre.users@[k1]);
            lemma_user_email_at(pre, k1);
            lemma_user_email_at(pre, i);
            assert(false);
        }
    }
    assert forall|e: Seq<char>| e != pre.users@[i].email@ && e != post.users@[i].email@ implies
        #[trigger] post.spec_user_by_email(e) == pre.spec_user_by_email(e) by {
        if pre.has_user_email(e) {
            let k0 = pre.user_email_index(e);
            lemma_user_email_at(pre, k0);
            assert(k0 != i);
            assert(post.users@[k0] == pre.users@[k0]);
            lemma_user_email_at(post, k0);
        } else {
            if post.has_user_email(e) {
                let k1 = post.user_email_index(e);
                assert(k1 != i);
                assert(post.users@[k1] == pre.users@[k1]);
                lemma_user_email_at(pre, k1);
                assert(false);
            }
        }
    }
}

/// Appending a user row with a fresh identifier and an email no other
/// row holds leaves every other identifier's and email's lookup
/// unchanged.
pub(crate) proof fn lemma_user_push(pre: Database, post: Database)
    requires
        pre.users_wf(),
        post.users@.len() == pre.users@.len() + 1,
        forall|k: int| 0 <= k < pre.users@.len() ==> #[trigger] post.users@[k] == pre.users@[k],
        post.users@[post.users@.len() - 1].id == Some(pre.next_user_id),
        !pre.has_user_email(post.users@[post.users@.len() - 1].email@),
        post.next_user_id > pre.next_user_id,
    ensures
        post.users_wf(),
        !pre.has_user(pre.next_user_id),
        post.spec_user(pre.next_user_id) == Some(post.users@[post.users@.len() - 1]),
        forall|x: i64| x != pre.next_user_id ==> #[trigger] post.spec_user(x) == pre.spec_user(x),
        post.spec_user_by_email(post.users@[post.users@.len() - 1].email@) == Some(
            post.users@[post.users@.len() - 1],
        ),
        forall|e: Seq<char>|
            e != post.users@[post.users@.len() - 1].email@ ==> #[trigger] post.spec_user_by_email(e)
                == pre.spec_user_by_email(e),
{
    let n = pre.users@.len() as int;
    let uid = pre.next_user_id;
    let email = post.users@[n].email@;
    assert forall|k: int| 0 <= k < post.users@.len() implies (#[trigger] post.users@[k]).id is Some
        && post.users@[k].id->0 < post.next_user_id by {
        if k < n {
            assert(post.users@[k] == pre.users@[k]);
        }
    }
    assert forall|a: int, b: int| 0 <= a < b < post.users@.len() implies #[trigger] post.users@[a].id
        != #[trigger] post.users@[b].id by {
        if b < n {
            assert(post.users@[a] == pre.users@[a] && post.users@[b] == pre.users@[b]);
        } else {
            assert(post.users@[a] == pre.users@[a]);
            assert(pre.users@[a].id->0 < uid);
        }
    }
    assert forall|a: int, b: int| 0 <= a < b < post.users@.len() implies #[trigger] post.users@[a].email@
        != #[trigger] post.users@[b].email@ by {
        if b < n {
            assert(post.users@[a] == pre.users@[a] && post.users@[b] == pre.users@[b]);
        } else {
            if post.users@[a].email@ == email {
                assert(pre.has_user_email(email));
                assert(false);
            }
        }
    }
    if pre.has_user(uid) {
        let k = pre.user_index(uid);
        lemma_user_at(pre, k);
        assert(false);
    }
    lemma_user_at(post, n);
    lemma_user_email_at(post, n);
    assert forall|x: i64| x != uid implies #[trigger] post.spec_user(x) == pre.spec_user(x) by {
        if pre.has_user(x) {
            let k0 = pre.user_index(x);
            lemma_user_at(pre, k0);
            assert(post.users@[k0] == pre.users@[k0]);
            lemma_user_at(post, k0);
        } else {
            if post.has_user(x) {
                let k1 = post.user_index(x);
                assert(k1 != n);
                assert(post.users@[k1] == pre.users@[k1]);
                lemma_user_at(pre, k1);
                assert(false);
            }
        }
    }
    assert forall|e: Seq<char>| e != email implies #[trigger] post.spec_user_by_email(e)
        == pre.spec_user_by_email(e) by {
        if pre.has_user_email(e) {
            let k0 = pre.user_email_index(e);
            lemma_user_email_at(pre, k0);
            assert(post.users@[k0] == pre.users@[k0]);
            lemma_user_email_at(post, k0);
        } else {
            if post.has_user_email(e) {
                let k1 = post.user_email_index(e);
                assert(k1 != n);
                assert(post.users@[k1] == pre.users@[k1]);
                lemma_user_email_at(pre, k1);
                assert(false);
            }
        }
    }
}

impl User {
    /// Persist any local modifications to this `User`: an identified
    /// user's stored row is rewritten in place (a row that no longer
    /// exists updates nothing), while an unidentified user is inserted
    /// under a fresh identifier, which is written back into `self`.
    /// Email addresses are unique across the table, as a relational
    /// store's unique index would enforce.
    pub fn save(&mut self, db: &mut Database) -> (r: FictResult<()>)
        requires
            old(db).wf(),
        ensures
            final(db).wf(),
            match old(self).id {
                Some(uid) => {
                    &&& *final(self) == *old(self)
                    &&& if old(db).spec_user_by_email(old(self).email@) matches Some(other)
                        && other.id != Some(uid) {
                        (r matches Err(e) && e is Message) && *final(db) == *old(db)
                    } else if old(db).spec_user(uid) is Some {
                        &&& r is Ok
                        &&& same_tables_except_users(*old(db), *final(db))
                        &&& final(db).users@.len() == old(db).users@.len()
                        &&& final(db).next_user_id == old(db).next_user_id
                        &&& final(db).spec_user(uid) == Some(*old(self))
                        &&& forall|x: i64|
                            x != uid ==> #[trigger] final(db).spec_user(x) == old(db).spec_user(x)
                        &&& final(db).spec_user_by_email(old(self).email@) == Some(*old(self))
                        &&& forall|e: Seq<char>|
                            e != old(self).email@ && e != old(db).spec_user(uid)->0.email@
                                ==> #[trigger] final(db).spec_user_by_email(e)
                                == old(db).spec_user_by_email(e)
                        &&& (old(db).spec_user(uid)->0.email@ != old(self).email@
                            ==> !final(db).has_user_email(old(db).spec_user(uid)->0.email@))
                    } else {
                        r is Ok && *final(db) == *old(db)
                    }
                },
                None => {
                    if old(db).has_user_email(old(self).email@) {
                        (r matches Err(e) && e is Message) && *final(db) == *old(db) && *final(self)
                            == *old(self)
                    } else if old(db).next_user_id == i64::MAX {
                        (r matches Err(e) && e is Message) && *final(db) == *old(db) && *final(self)
                            == *old(self)
                    } else {
                        &&& r is Ok
                        &&& *final(self) == User {
                            id: Some(old(db).next_user_id),
                            name: old(self).name,
                            email: old(self).email,
                        }
                        &&& same_tables_except_users(*old(db), *final(db))
                        &&& final(db).users@.len() == old(db).users@.len() + 1
                        &&& final(db).next_user_id == old(db).next_user_id + 1
                        &&& !old(db).has_user(old(db).next_user_id)
                        &&& final(db).spec_user(old(db).next_user_id) == Some(*final(self))
                        &&& forall|x: i64|
                            x != old(db).next_user_id ==> #[trigger] final(db).spec_user(x) == old(
                                db,
                            ).spec_user(x)
                        &&& final(db).spec_user_by_email(old(self).email@) == Some(*final(self))
                        &&& forall|e: Seq<char>|
                            e != old(self).email@ ==> #[trigger] final(db).spec_user_by_email(e)
                                == old(db).spec_user_by_email(e)
                    }
                },
            },
    {
        match self.id {
            Some(existing_id) => {
                // A unique email index forbids taking another row's email.
                match db.find_user_by_email(&self.email) {
                    Some(j) => {
                        let same = match db.users[j].id {
                            Some(other_id) => other_id == existing_id,
                            None => false,
                        };
                        if !same {
                            return Err(fict_err("Email address is already in use"));
                        }
                    },
                    None => (),
                }
                match db.find_user(existing_id) {
                    Some(i) => {
                        let ghost pre = *db;
                        let row = &mut db.users[i];
                        row.name = self.name.clone();
                        row.email = self.email.clone();
                        proof {
                            lemma_user_replace(pre, *db, i as int);
                        }
                        Ok(())
                    },
                    None => Ok(()),
                }
            },
            None => {
                match db.find_user_by_email(&self.email) {
                    Some(_) => {
                        return Err(fict_err("Email address is already in use"));
                    },
                    None => (),
                }
                if db.next_user_id == i64::MAX {
                    return Err(fict_err("User id sequence exhausted"));
                }
                let new_id = db.next_user_id;
                let ghost pre = *db;
                db.users.push(
                    User { id: Some(new_id), name: self.name.clone(), email: self.email.clone() },
                );
                db.next_user_id = new_id + 1;
                proof {
                    lemma_user_push(pre, *db);
                }
                self.id = Some(new_id);
                Ok(())
            },
        }
    }

    /// Discover an existing `User` by email address. If none exists,
    /// create, persist, and return a new one with the provided `name`.
    pub fn find_or_create(db: &mut Database, email: String, name: String) -> (r: FictResult<User>)
        requires
            old(db).wf(),
        ensures
            final(db).wf(),
            match old(db).spec_user_by_email(email@) {
                Some(u) => r == Ok::<User, FictError>(u) && *final(db) == *old(db),
                None => {
                    if old(db).next_user_id == i64::MAX {
                        (r matches Err(e) && e is Message) && *final(db) == *old(db)
                    } else {
                        &&& r == Ok::<User, FictError>(
                            User { id: Some(old(db).next_user_id), name: name, email: email },
                        )
                        &&& same_tables_except_users(*old(db), *final(db))
                        &&& final(db).users@.len() == old(db).users@.len() + 1
                        &&& final(db).next_user_id == old(db).next_user_id + 1
                        &&& !old(db).has_user(old(db).next_user_id)
                        &&& final(db).spec_user(old(db).next_user_id) == Some(
                            User { id: Some(old(db).next_user_id), name: name, email: email },
                        )
                        &&& forall|x: i64|
                            x != old(db).next_user_id ==> #[trigger] final(db).spec_user(x) == old(
                                db,
                            ).spec_user(x)
                        &&& final(db).spec_user_by_email(email@) == Some(
                            User { id: Some(old(db).next_user_id), name: name, email: email },
                        )
                        &&& forall|e: Seq<char>|
                            e != email@ ==> #[trigger] final(db).spec_user_by_email(e) == old(
                                db,
                            ).spec_user_by_email(e)
                    }
                },
            },
    {
        match db.find_user_by_email(&email) {
            Some(i) => Ok(db.users[i].clone()),
            None => {
                let mut u = User { id: None, name: name, email: email };
                match u.save(db) {
                    Ok(()) => Ok(u),
                    Err(e) => Err(e),
                }
            },
        }
    }

    /// Find the `User` with a known identifier; a missing row is a
    /// storage-level fault.
    pub fn with_id(db: &Database, id: i64) -> (r: FictResult<User>)
        requires
            db.wf(),
        ensures
            match db.spec_user(id) {
                Some(u) => r == Ok::<User, FictError>(u),
                None => r matches Err(e) && e is Message,
            },
    {
        match db.find_user(id) {
            Some(i) => Ok(db.users[i].clone()),
            None => Err(fict_err("Expected a user row, but none was found")),
        }
    }
}

} // verus!
