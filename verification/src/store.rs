use vstd::pervasive::VecAdditionalExecFns;
use vstd::prelude::*;

use crate::model::Error;
use crate::model::Note;
use crate::model::User;
use crate::model::edited;
use crate::model::toggled;
use crate::model::idx_of_note;
use crate::model::idx_of_user;
use crate::model::lemma_idx_of_note;
use crate::model::lemma_idx_of_note_first;
use crate::model::lemma_idx_of_user;
use crate::model::lemma_idx_of_user_first;

verus! {

/// The relational entity store: all state the handlers touch lives here.
/// One handle is injected into every handler; handlers keep no state of
/// their own between requests.
pub struct Store {
    pub users: Vec<User>,
    pub notes: Vec<Note>,
}

impl Store {
    /// Well-formedness: ids are unique, and every note is owned by an
    /// existing user (the store enforces the foreign key).
    pub open spec fn wf(self) -> bool {
        &&& forall|i: int, j: int|
            0 <= i < j < self.users@.len() ==> self.users@[i].user_id != self.users@[j].user_id
        &&& forall|i: int, j: int|
            0 <= i < j < self.notes@.len() ==> self.notes@[i].note_id != self.notes@[j].note_id
        &&& forall|i: int|
            0 <= i < self.notes@.len() ==> idx_of_user(self.users@, #[trigger] self.notes@[i].user_id) >= 0
    }

    pub fn new() -> (r: Store)
        ensures
            r.wf(),
            r.users@ =~= Seq::<User>::empty(),
            r.notes@ =~= Seq::<Note>::empty(),
    {
        Store { users: Vec::new(), notes: Vec::new() }
    }

    /// Index of the user with the given id, if one exists.
    pub fn find_user(&self, user_id: u128) -> (r: Option<usize>)
        ensures
            r matches Some(i) ==> idx_of_user(self.users@, user_id) == i as int,
            r is None ==> idx_of_user(self.users@, user_id) < 0,
    {
        let mut i: usize = 0;
        while i < self.users.len()
            invariant
                i <= self.users.len(),
                forall|k: int| 0 <= k < i ==> self.users@[k].user_id != user_id,
            decreases self.users.len() - i,
        {
            if self.users[i].user_id == user_id {
                proof {
                    lemma_idx_of_user_first(self.users@, user_id, i as int);
                }
                return Some(i);
            }
            i += 1;
        }
        proof {
            lemma_idx_of_user(self.users@, user_id);
        }
        None
    }

    /// Index of the note with the given id, if one exists.
    pub fn find_note(&self, note_id: u128) -> (r: Option<usize>)
        ensures
            r matches Some(i) ==> idx_of_note(self.notes@, note_id) == i as int,
            r is None ==> idx_of_note(self.notes@, note_id) < 0,
    {
        let mut i: usize = 0;
        while i < self.notes.len()
            invariant
                i <= self.notes.len(),
                forall|k: int| 0 <= k < i ==> self.notes@[k].note_id != note_id,
            decreases self.notes.len() - i,
        {
            if self.notes[i].note_id == note_id {
                proof {
                    lemma_idx_of_note_first(self.notes@, note_id, i as int);
                }
                return Some(i);
            }
            i += 1;
        }
        proof {
            lemma_idx_of_note(self.notes@, note_id);
        }
        None
    }

    /// Adds a user. Fails with `Constraint` when the id is already taken.
    pub fn insert_user(&mut self, user: User) -> (r: Result<(), Error>)
        requires
            old(self).wf(),
        ensures
            final(self).wf(),
            idx_of_user(old(self).users@, user.user_id) < 0 ==> {
                &&& r == Ok::<(), Error>(())
                &&& final(self).users@ == old(self).users@.push(user)
                &&& final(self).notes@ == old(self).notes@
            },
            idx_of_user(old(self).users@, user.user_id) >= 0 ==> {
                &&& r == Err::<(), Error>(Error::Constraint)
                &&& final(self).users@ == old(self).users@
                &&& final(self).notes@ == old(self).notes@
            },
    {
        proof {
            lemma_idx_of_user(self.users@, user.user_id);
        }
        match self.find_user(user.user_id) {
            Some(_) => Err(Error::Constraint),
            None => {
                proof {
                    let users0 = self.users@;
                    let users1 = self.users@.push(user);
                    lemma_idx_of_user(users0, user.user_id);
                    assert forall|i: int, j: int|
                        0 <= i < j < users1.len() implies users1[i].user_id != users1[j].user_id by {
                        assert(users1[i] == users0[i]);
                        if j < users0.len() {
                            assert(users1[j] == users0[j]);
                        }
                    }
                    assert forall|i: int|
                        0 <= i < self.notes@.len() implies idx_of_user(
                        users1,
                        #[trigger] self.notes@[i].user_id,
                    ) >= 0 by {
                        lemma_idx_of_user(users0, self.notes@[i].user_id);
                        let k = idx_of_user(users0, self.notes@[i].user_id);
                        assert forall|m: int| 0 <= m < k implies users1[m].user_id
                            != self.notes@[i].user_id by {
                            assert(users1[m] == users0[m]);
                        }
                        assert(users1[k] == users0[k]);
                        lemma_idx_of_user_first(users1, self.notes@[i].user_id, k);
                    }
                }
                self.users.push(user);
                Ok(())
            },
        }
    }

    /// Adds a note. Fails with `Constraint` when the note id is already
    /// taken or the owning user does not exist (foreign key).
    pub fn insert_note(&mut self, note: Note) -> (r: Result<(), Error>)
        requires
            old(self).wf(),
        ensures
            final(self).wf(),
            idx_of_note(old(self).notes@, note.note_id) < 0 && idx_of_user(
                old(self).users@,
                note.user_id,
            ) >= 0 ==> {
                &&& r == Ok::<(), Error>(())
                &&& final(self).notes@ == old(self).notes@.push(note)
                &&& final(self).users@ == old(self).users@
            },
            idx_of_note(old(self).notes@, note.note_id) >= 0 || idx_of_user(
                old(self).users@,
                note.user_id,
            ) < 0 ==> {
                &&& r == Err::<(), Error>(Error::Constraint)
                &&& final(self).notes@ == old(self).notes@
                &&& final(self).users@ == old(self).users@
            },
    {
        if self.find_note(note.note_id).is_some() {
            return Err(Error::Constraint);
        }
        if self.find_user(note.user_id).is_none() {
            return Err(Error::Constraint);
        }
        proof {
            lemma_idx_of_note(self.notes@, note.note_id);
            let notes0 = self.notes@;
            let notes1 = self.notes@.push(note);
            assert forall|i: int, j: int|
                0 <= i < j < notes1.len() implies notes1[i].note_id != notes1[j].note_id by {
                assert(notes1[i] == notes0[i]);
                if j < notes0.len() {
                    assert(notes1[j] == notes0[j]);
                }
            }
            assert forall|i: int|
                0 <= i < notes1.len() implies idx_of_user(
                self.users@,
                #[trigger] notes1[i].user_id,
            ) >= 0 by {
                if i < notes0.len() {
                    assert(notes1[i] == notes0[i]);
                }
            }
        }
        self.notes.push(note);
        Ok(())
    }

    /// Overwrites the note at `i`, keeping its id and owner.
    pub fn set_note(&mut self, i: usize, note: Note)
        requires
            old(self).wf(),
            i < old(self).notes@.len(),
            note.note_id == old(self).notes@[i as int].note_id,
            note.user_id == old(self).notes@[i as int].user_id,
        ensures
            final(self).wf(),
            final(self).notes@ == old(self).notes@.update(i as int, note),
            final(self).users@ == old(self).users@,
    {
        self.notes.set(i, note);
    }

    /// Flips the done flag of the note at `i` and stamps the change.
    pub fn toggle_note(&mut self, i: usize, now: i64)
        requires
            old(self).wf(),
            i < old(self).notes@.len(),
        ensures
            final(self).wf(),
            final(self).notes@ == old(self).notes@.update(
                i as int,
                toggled(old(self).notes@[i as int], now),
            ),
            final(self).users@ == old(self).users@,
    {
        let mut n = self.notes.remove(i);
        n.is_done = !n.is_done;
        n.updated_at = Some(now);
        proof {
            assert(n == toggled(old(self).notes@[i as int], now));
        }
        self.notes.insert(i, n);
        proof {
            assert(self.notes@ =~= old(self).notes@.update(
                i as int,
                toggled(old(self).notes@[i as int], now),
            ));
            self.lemma_wf_after_update(*old(self), i as int);
        }
    }

    /// Overwrites title and body of the note at `i` and stamps the change.
    pub fn edit_note(&mut self, i: usize, title: String, body: String, now: i64)
        requires
            old(self).wf(),
            i < old(self).notes@.len(),
        ensures
            final(self).wf(),
            final(self).notes@ == old(self).notes@.update(
                i as int,
                edited(old(self).notes@[i as int], title, body, now),
            ),
            final(self).users@ == old(self).users@,
    {
        let mut n = self.notes.remove(i);
        n.title = title;
        n.body = body;
        n.updated_at = Some(now);
        proof {
            assert(n == edited(old(self).notes@[i as int], title, body, now));
        }
        self.notes.insert(i, n);
        proof {
            assert(self.notes@ =~= old(self).notes@.update(
                i as int,
                edited(old(self).notes@[i as int], title, body, now),
            ));
            self.lemma_wf_after_update(*old(self), i as int);
        }
    }

    /// Replacing a note without changing its id or owner keeps the store
    /// well-formed.
    proof fn lemma_wf_after_update(self, prev: Store, i: int)
        requires
            prev.wf(),
            0 <= i < prev.notes@.len(),
            self.users@ == prev.users@,
            self.notes@.len() == prev.notes@.len(),
            self.notes@[i].note_id == prev.notes@[i].note_id,
            self.notes@[i].user_id == prev.notes@[i].user_id,
            forall|k: int| 0 <= k < prev.notes@.len() && k != i ==> self.notes@[k] == prev.notes@[k],
        ensures
            self.wf(),
    {
        assert forall|a: int, b: int|
            0 <= a < b < self.notes@.len() implies self.notes@[a].note_id
            != self.notes@[b].note_id by {
            assert(self.notes@[a].note_id == prev.notes@[a].note_id);
            assert(self.notes@[b].note_id == prev.notes@[b].note_id);
        }
        assert forall|k: int|
            0 <= k < self.notes@.len() implies idx_of_user(
            self.users@,
            #[trigger] self.notes@[k].user_id,
        ) >= 0 by {
            assert(self.notes@[k].user_id == prev.notes@[k].user_id);
        }
    }

    /// Removes the note at `i` permanently.
    pub fn remove_note(&mut self, i: usize)
        requires
            old(self).wf(),
            i < old(self).notes@.len(),
        ensures
            final(self).wf(),
            final(self).notes@ == old(self).notes@.remove(i as int),
            final(self).users@ == old(self).users@,
    {
        self.notes.remove(i);
        proof {
            assert forall|k: int|
                0 <= k < self.notes@.len() implies idx_of_user(
                self.users@,
                #[trigger] self.notes@[k].user_id,
            ) >= 0 by {
                if k < i {
                    assert(self.notes@[k] == old(self).notes@[k]);
                } else {
                    assert(self.notes@[k] == old(self).notes@[k + 1]);
                }
            }
        }
    }
}

} // verus!
