use vstd::prelude::*;
use vstd::string::StringExecFns;

use crate::model::Error;
use crate::model::Note;
use crate::model::NoteEdit;
use crate::model::NoteNew;
use crate::model::edited;
use crate::model::idx_of_note;
use crate::model::idx_of_user;
use crate::model::lemma_idx_of_note;
use crate::model::lemma_idx_of_user;
use crate::model::new_note;
use crate::model::notes_of;
use crate::model::toggled;
use crate::order::notes_ordered;
use crate::order::sort_notes;
use crate::render::note_row_edit;
use crate::render::note_row_new;
use crate::render::note_row_new_form;
use crate::render::note_row_view;
use crate::render::notes_page;
use crate::render::spec_note_row_edit;
use crate::render::spec_note_row_new;
use crate::render::spec_note_row_new_form;
use crate::render::spec_note_row_view;
use crate::render::spec_notes_page;
use crate::store::Store;

verus! {

/// What the ownership guard decides: the note when it exists and belongs
/// to the expected user, `NotFound` when no note has the id, and
/// `OwnershipMismatch` when it belongs to someone else.
pub open spec fn spec_verify_owner(notes: Seq<Note>, note_id: u128, expected_user_id: u128) -> Result<
    Note,
    Error,
> {
    let i = idx_of_note(notes, note_id);
    if i < 0 {
        Err(Error::NotFound)
    } else if notes[i].user_id != expected_user_id {
        Err(Error::OwnershipMismatch)
    } else {
        Ok(notes[i])
    }
}

/// The ownership guard: loads the note by id and fails unless it belongs
/// to the expected user. Every handler that takes both a user id and a
/// note id calls this before reading or changing note data.
pub fn verify_owner(store: &Store, note_id: u128, expected_user_id: u128) -> (r: Result<
    Note,
    Error,
>)
    ensures
        r == spec_verify_owner(store.notes@, note_id, expected_user_id),
{
    proof {
        lemma_idx_of_note(store.notes@, note_id);
    }
    match store.find_note(note_id) {
        None => Err(Error::NotFound),
        Some(i) => {
            let n = &store.notes[i];
            if n.user_id != expected_user_id {
                Err(Error::OwnershipMismatch)
            } else {
                Ok(n.clone())
            }
        },
    }
}

/// Read-one: the note's row in view mode, after the ownership guard.
pub fn h_note(store: &Store, user_id: u128, note_id: u128) -> (r: Result<String, Error>)
    ensures
        spec_verify_owner(store.notes@, note_id, user_id) matches Ok(n) ==> r matches Ok(s)
            && s@ == spec_note_row_view(n),
        spec_verify_owner(store.notes@, note_id, user_id) matches Err(e) ==> r == Err::<
            String,
            Error,
        >(e),
{
    match verify_owner(store, note_id, user_id) {
        Ok(n) => Ok(note_row_view(&n)),
        Err(e) => Err(e),
    }
}

/// Enter-edit: the note's row in edit mode, after the ownership guard.
pub fn h_note_edit(store: &Store, user_id: u128, note_id: u128) -> (r: Result<String, Error>)
    ensures
        spec_verify_owner(store.notes@, note_id, user_id) matches Ok(n) ==> r matches Ok(s)
            && s@ == spec_note_row_edit(n),
        spec_verify_owner(store.notes@, note_id, user_id) matches Err(e) ==> r == Err::<
            String,
            Error,
        >(e),
{
    match verify_owner(store, note_id, user_id) {
        Ok(n) => Ok(note_row_edit(&n)),
        Err(e) => Err(e),
    }
}

/// The create-prompt row, shown again after a create or on demand.
pub fn h_note_new(user_id: u128) -> (r: String)
    ensures
        r@ == spec_note_row_new_form(user_id),
{
    note_row_new_form(user_id)
}

/// Update: overwrites title and body (no validation: both are opaque
/// strings), stamps `updated_at`, and returns the row in view mode.
pub fn h_note_edit_put(
    store: &mut Store,
    user_id: u128,
    note_id: u128,
    form: NoteEdit,
    now: i64,
) -> (r: Result<String, Error>)
    requires
        old(store).wf(),
    ensures
        final(store).wf(),
        final(store).users@ == old(store).users@,
        spec_verify_owner(old(store).notes@, note_id, user_id) matches Ok(n) ==> {
            &&& final(store).notes@ == old(store).notes@.update(
                idx_of_note(old(store).notes@, note_id),
                edited(n, form.title, form.body, now),
            )
            &&& r matches Ok(s) && s@ == spec_note_row_view(edited(n, form.title, form.body, now))
        },
        spec_verify_owner(old(store).notes@, note_id, user_id) matches Err(e) ==> {
            &&& final(store).notes@ == old(store).notes@
            &&& r == Err::<String, Error>(e)
        },
{
    proof {
        lemma_idx_of_note(store.notes@, note_id);
    }
    match store.find_note(note_id) {
        None => Err(Error::NotFound),
        Some(i) => {
            if store.notes[i].user_id != user_id {
                Err(Error::OwnershipMismatch)
            } else {
                let NoteEdit { title, body } = form;
                store.edit_note(i, title, body, now);
                Ok(note_row_view(&store.notes[i]))
            }
        },
    }
}

/// Toggle: flips the done flag, stamps `updated_at`, and returns the row
/// in view mode.
pub fn h_note_toggle(store: &mut Store, user_id: u128, note_id: u128, now: i64) -> (r: Result<
    String,
    Error,
>)
    requires
        old(store).wf(),
    ensures
        final(store).wf(),
        final(store).users@ == old(store).users@,
        spec_verify_owner(old(store).notes@, note_id, user_id) matches Ok(n) ==> {
            &&& final(store).notes@ == old(store).notes@.update(
                idx_of_note(old(store).notes@, note_id),
                toggled(n, now),
            )
            &&& r matches Ok(s) && s@ == spec_note_row_view(toggled(n, now))
        },
        spec_verify_owner(old(store).notes@, note_id, user_id) matches Err(e) ==> {
            &&& final(store).notes@ == old(store).notes@
            &&& r == Err::<String, Error>(e)
        },
{
    proof {
        lemma_idx_of_note(store.notes@, note_id);
    }
    match store.find_note(note_id) {
        None => Err(Error::NotFound),
        Some(i) => {
            if store.notes[i].user_id != user_id {
                Err(Error::OwnershipMismatch)
            } else {
                store.toggle_note(i, now);
                Ok(note_row_view(&store.notes[i]))
            }
        },
    }
}

/// Delete: removes the note permanently; the success response carries no
/// fragment (the client drops the row).
pub fn h_note_delete(store: &mut Store, user_id: u128, note_id: u128) -> (r: Result<(), Error>)
    requires
        old(store).wf(),
    ensures
        final(store).wf(),
        final(store).users@ == old(store).users@,
        spec_verify_owner(old(store).notes@, note_id, user_id) matches Ok(n) ==> {
            &&& final(store).notes@ == old(store).notes@.remove(
                idx_of_note(old(store).notes@, note_id),
            )
            &&& r == Ok::<(), Error>(())
        },
        spec_verify_owner(old(store).notes@, note_id, user_id) matches Err(e) ==> {
            &&& final(store).notes@ == old(store).notes@
            &&& r == Err::<(), Error>(e)
        },
{
    proof {
        lemma_idx_of_note(store.notes@, note_id);
    }
    match store.find_note(note_id) {
        None => Err(Error::NotFound),
        Some(i) => {
            if store.notes[i].user_id != user_id {
                Err(Error::OwnershipMismatch)
            } else {
                store.remove_note(i);
                Ok(())
            }
        },
    }
}

/// Create: inserts a new note for the path's user — not done, never
/// touched, stamped with its creation time — and returns the new row in
/// view mode followed by a fresh create-prompt row. Fails with
/// `Constraint` when the store refuses the write (owner missing, or the
/// generated id already taken).
pub fn h_note_new_post(
    store: &mut Store,
    user_id: u128,
    note_id: u128,
    form: NoteNew,
    now: i64,
) -> (r: Result<String, Error>)
    requires
        old(store).wf(),
    ensures
        final(store).wf(),
        final(store).users@ == old(store).users@,
        idx_of_note(old(store).notes@, note_id) < 0 && idx_of_user(old(store).users@, user_id)
            >= 0 ==> {
            &&& final(store).notes@ == old(store).notes@.push(
                new_note(note_id, user_id, form.title, form.body, now),
            )
            &&& r matches Ok(s) && s@ == spec_note_row_view(
                new_note(note_id, user_id, form.title, form.body, now),
            ) + spec_note_row_new(user_id)
        },
        idx_of_note(old(store).notes@, note_id) >= 0 || idx_of_user(old(store).users@, user_id)
            < 0 ==> {
            &&& final(store).notes@ == old(store).notes@
            &&& r == Err::<String, Error>(Error::Constraint)
        },
{
    let NoteNew { title, body } = form;
    let note = Note {
        note_id,
        user_id,
        title,
        body,
        is_done: false,
        created_at: now,
        updated_at: None,
    };
    let row = note_row_view(&note);
    match store.insert_note(note) {
        Ok(()) => {
            let mut r = row;
            r.append(note_row_new(user_id).as_str());
            Ok(r)
        },
        Err(e) => Err(e),
    }
}

/// List: the full notes page of one user — rows in display order, then
/// the create-prompt trailer. Fails with `NotFound` when no user has the
/// id.
pub fn h_notes(store: &Store, user_id: u128) -> (r: Result<String, Error>)
    ensures
        idx_of_user(store.users@, user_id) < 0 ==> r == Err::<String, Error>(Error::NotFound),
        idx_of_user(store.users@, user_id) >= 0 ==> (r matches Ok(page) && exists|s: Seq<Note>|
            {
                &&& #[trigger] s.to_multiset() == notes_of(store.notes@, user_id).to_multiset()
                &&& notes_ordered(s)
                &&& page@ == spec_notes_page(
                    store.users@[idx_of_user(store.users@, user_id)].name@,
                    user_id,
                    s,
                )
            }),
{
    let i = match store.find_user(user_id) {
        None => {
            return Err(Error::NotFound);
        },
        Some(i) => i,
    };
    proof {
        lemma_idx_of_user(store.users@, user_id);
    }
    let mut mine: Vec<Note> = Vec::new();
    let mut k: usize = 0;
    while k < store.notes.len()
        invariant
            k <= store.notes@.len(),
            mine@ == notes_of(store.notes@.take(k as int), user_id),
        decreases store.notes@.len() - k,
    {
        if store.notes[k].user_id == user_id {
            mine.push(store.notes[k].clone());
        }
        proof {
            crate::model::lemma_notes_of_push(store.notes@.take(k as int), store.notes@[k as int], user_id);
            assert(store.notes@.take((k + 1) as int) =~= store.notes@.take(k as int).push(
                store.notes@[k as int],
            ));
        }
        k += 1;
    }
    proof {
        assert(store.notes@.take(store.notes@.len() as int) =~= store.notes@);
    }
    let ghost mine0 = mine@;
    let sorted = sort_notes(mine);
    let page = notes_page(store.users[i].name.as_str(), user_id, &sorted);
    proof {
        assert(sorted@.to_multiset() == notes_of(store.notes@, user_id).to_multiset());
        assert(notes_ordered(sorted@));
    }
    Ok(page)
}

} // verus!
