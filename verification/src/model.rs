use vstd::prelude::*;

verus! {

/// A user of the note-taking service. `user_id` is the opaque unique
/// identifier carried in request paths (a 128-bit unique id).
pub struct User {
    pub user_id: u128,
    pub name: String,
}

/// A note owned by exactly one user for its whole lifetime.
///
/// `updated_at` is `None` if and only if the note has never been edited
/// or toggled since creation; `created_at` is set at creation and never
/// changes. Timestamps are totally ordered instants.
pub struct Note {
    pub note_id: u128,
    pub user_id: u128,
    pub title: String,
    pub body: String,
    pub is_done: bool,
    pub created_at: i64,
    pub updated_at: Option<i64>,
}

/// Form payload for editing an existing note.
pub struct NoteEdit {
    pub title: String,
    pub body: String,
}

/// Form payload for creating a new note.
pub struct NoteNew {
    pub title: String,
    pub body: String,
}

impl Clone for Note {
    fn clone(&self) -> (r: Self)
        ensures
            r == *self,
    {
        Note {
            note_id: self.note_id,
            user_id: self.user_id,
            title: self.title.clone(),
            body: self.body.clone(),
            is_done: self.is_done,
            created_at: self.created_at,
            updated_at: self.updated_at,
        }
    }
}

impl Clone for User {
    fn clone(&self) -> (r: Self)
        ensures
            r == *self,
    {
        User { user_id: self.user_id, name: self.name.clone() }
    }
}

/// One row of the users listing: a user together with how many notes
/// it owns (zero-note users still get a row).
pub struct UserCount {
    pub user_id: u128,
    pub name: String,
    pub notes_count: u64,
}

/// Why a request was refused.
#[derive(Clone, Copy, Debug, PartialEq, Eq, Structural)]
pub enum Error {
    /// No user or note with the given id exists.
    NotFound,
    /// The note exists but belongs to a different user than the path names.
    OwnershipMismatch,
    /// The store refused the write (duplicate id, or unknown owning user).
    Constraint,
}

/// A freshly created note: owned by `user_id`, not done, never touched.
pub open spec fn new_note(note_id: u128, user_id: u128, title: String, body: String, now: i64) -> Note {
    Note {
        note_id,
        user_id,
        title,
        body,
        is_done: false,
        created_at: now,
        updated_at: None,
    }
}

/// The note after its done flag is flipped at time `now`.
pub open spec fn toggled(n: Note, now: i64) -> Note {
    Note { is_done: !n.is_done, updated_at: Some(now), ..n }
}

/// The note after its title and body are overwritten at time `now`.
pub open spec fn edited(n: Note, title: String, body: String, now: i64) -> Note {
    Note { title, body, updated_at: Some(now), ..n }
}

/// Index of the first note with the given id, or -1 if none exists.
pub open spec fn idx_of_note(notes: Seq<Note>, id: u128) -> int
    decreases notes.len(),
{
    if notes.len() == 0 {
        -1
    } else if notes[0].note_id == id {
        0
    } else if idx_of_note(notes.drop_first(), id) < 0 {
        -1
    } else {
        1 + idx_of_note(notes.drop_first(), id)
    }
}

/// Index of the first user with the given id, or -1 if none exists.
pub open spec fn idx_of_user(users: Seq<User>, id: u128) -> int
    decreases users.len(),
{
    if users.len() == 0 {
        -1
    } else if users[0].user_id == id {
        0
    } else if idx_of_user(users.drop_first(), id) < 0 {
        -1
    } else {
        1 + idx_of_user(users.drop_first(), id)
    }
}

/// The notes owned by `user_id`, in store order.
pub open spec fn notes_of(notes: Seq<Note>, user_id: u128) -> Seq<Note>
    decreases notes.len(),
{
    if notes.len() == 0 {
        Seq::empty()
    } else if notes[0].user_id == user_id {
        seq![notes[0]] + notes_of(notes.drop_first(), user_id)
    } else {
        notes_of(notes.drop_first(), user_id)
    }
}

/// Appending one note extends its owner's list and nobody else's.
pub proof fn lemma_notes_of_push(notes: Seq<Note>, n: Note, user_id: u128)
    ensures
        notes_of(notes.push(n), user_id) == if n.user_id == user_id {
            notes_of(notes, user_id).push(n)
        } else {
            notes_of(notes, user_id)
        },
    decreases notes.len(),
{
    let p = notes.push(n);
    if notes.len() == 0 {
        assert(p.drop_first() =~= Seq::<Note>::empty());
        assert(p[0] == n);
        assert(notes_of(p.drop_first(), user_id) == Seq::<Note>::empty());
        assert(notes_of(notes, user_id) == Seq::<Note>::empty());
        if n.user_id == user_id {
            assert(notes_of(p, user_id) == seq![n] + Seq::<Note>::empty());
            assert(seq![n] + Seq::<Note>::empty() =~= Seq::<Note>::empty().push(n));
        } else {
            assert(notes_of(p, user_id) == Seq::<Note>::empty());
        }
    } else {
        let rest = notes.drop_first();
        lemma_notes_of_push(rest, n, user_id);
        assert(p.drop_first() =~= rest.push(n));
        assert(p[0] == notes[0]);
        if notes[0].user_id == user_id {
            assert(notes_of(p, user_id) == seq![notes[0]] + notes_of(rest.push(n), user_id));
            assert(notes_of(notes, user_id) == seq![notes[0]] + notes_of(rest, user_id));
            if n.user_id == user_id {
                assert(seq![notes[0]] + notes_of(rest, user_id).push(n) =~= (seq![notes[0]]
                    + notes_of(rest, user_id)).push(n));
            }
        } else {
            assert(notes_of(p, user_id) == notes_of(rest.push(n), user_id));
            assert(notes_of(notes, user_id) == notes_of(rest, user_id));
        }
    }
}

pub proof fn lemma_idx_of_note(notes: Seq<Note>, id: u128)
    ensures
        idx_of_note(notes, id) >= 0 ==> {
            &&& idx_of_note(notes, id) < notes.len()
            &&& notes[idx_of_note(notes, id)].note_id == id
            &&& forall|k: int| 0 <= k < idx_of_note(notes, id) ==> notes[k].note_id != id
        },
        idx_of_note(notes, id) < 0 ==> forall|k: int| 0 <= k < notes.len() ==> notes[k].note_id != id,
    decreases notes.len(),
{
    if notes.len() > 0 && notes[0].note_id != id {
        let rest = notes.drop_first();
        lemma_idx_of_note(rest, id);
        let r = idx_of_note(rest, id);
        if r < 0 {
            assert forall|k: int| 0 <= k < notes.len() implies notes[k].note_id != id by {
                if k > 0 {
                    assert(notes[k] == rest[k - 1]);
                }
            }
        } else {
            assert(notes[1 + r] == rest[r]);
            assert forall|k: int| 0 <= k < 1 + r implies notes[k].note_id != id by {
                if k > 0 {
                    assert(notes[k] == rest[k - 1]);
                }
            }
        }
    }
}

pub proof fn lemma_idx_of_note_first(notes: Seq<Note>, id: u128, i: int)
    requires
        0 <= i < notes.len(),
        notes[i].note_id == id,
        forall|k: int| 0 <= k < i ==> notes[k].note_id != id,
    ensures
        idx_of_note(notes, id) == i,
    decreases notes.len(),
{
    if i > 0 {
        let rest = notes.drop_first();
        assert forall|k: int| 0 <= k < i - 1 implies rest[k].note_id != id by {
            assert(rest[k] == notes[k + 1]);
        }
        assert(rest[i - 1] == notes[i]);
        lemma_idx_of_note_first(rest, id, i - 1);
    }
}

pub proof fn lemma_idx_of_user(users: Seq<User>, id: u128)
    ensures
        idx_of_user(users, id) >= 0 ==> {
            &&& idx_of_user(users, id) < users.len()
            &&& users[idx_of_user(users, id)].user_id == id
            &&& forall|k: int| 0 <= k < idx_of_user(users, id) ==> users[k].user_id != id
        },
        idx_of_user(users, id) < 0 ==> forall|k: int| 0 <= k < users.len() ==> users[k].user_id != id,
    decreases users.len(),
{
    if users.len() > 0 && users[0].user_id != id {
        let rest = users.drop_first();
        lemma_idx_of_user(rest, id);
        let r = idx_of_user(rest, id);
        if r < 0 {
            assert forall|k: int| 0 <= k < users.len() implies users[k].user_id != id by {
                if k > 0 {
                    assert(users[k] == rest[k - 1]);
                }
            }
        } else {
            assert(users[1 + r] == rest[r]);
            assert forall|k: int| 0 <= k < 1 + r implies users[k].user_id != id by {
                if k > 0 {
                    assert(users[k] == rest[k - 1]);
                }
            }
        }
    }
}

pub proof fn lemma_idx_of_user_first(users: Seq<User>, id: u128, i: int)
    requires
        0 <= i < users.len(),
        users[i].user_id == id,
        forall|k: int| 0 <= k < i ==> users[k].user_id != id,
    ensures
        idx_of_user(users, id) == i,
    decreases users.len(),
{
    if i > 0 {
        let rest = users.drop_first();
        assert forall|k: int| 0 <= k < i - 1 implies rest[k].user_id != id by {
            assert(rest[k] == users[k + 1]);
        }
        assert(rest[i - 1] == users[i]);
        lemma_idx_of_user_first(rest, id, i - 1);
    }
}

} // verus!
