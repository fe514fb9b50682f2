use vstd::prelude::*;

use crate::handlers::spec_verify_owner;
use crate::model::Error;
use crate::model::Note;
use crate::model::idx_of_note;
use crate::model::lemma_idx_of_note;
use crate::model::lemma_idx_of_note_first;
use crate::model::lemma_notes_of_push;
use crate::model::new_note;
use crate::model::notes_of;
use crate::model::toggled;
use crate::order::display_before;
use crate::order::notes_ordered;

verus! {

/// Two stores of notes whose ids agree position by position are searched
/// the same way.
pub proof fn lemma_idx_of_note_same_ids(a: Seq<Note>, b: Seq<Note>, id: u128)
    requires
        a.len() == b.len(),
        forall|k: int| 0 <= k < a.len() ==> a[k].note_id == b[k].note_id,
    ensures
        idx_of_note(a, id) == idx_of_note(b, id),
    decreases a.len(),
{
    if a.len() > 0 {
        let ra = a.drop_first();
        let rb = b.drop_first();
        assert forall|k: int| 0 <= k < ra.len() implies ra[k].note_id == rb[k].note_id by {
            assert(ra[k] == a[k + 1]);
            assert(rb[k] == b[k + 1]);
        }
        lemma_idx_of_note_same_ids(ra, rb, id);
    }
}

/// The ownership guard in full: for a note that is in the store, the
/// guard succeeds with exactly that note when asked with its owner's id,
/// and fails with `OwnershipMismatch` when asked with any other id.
pub proof fn lemma_ownership_guard(notes: Seq<Note>, i: int, expected_user_id: u128)
    requires
        forall|a: int, b: int| 0 <= a < b < notes.len() ==> notes[a].note_id != notes[b].note_id,
        0 <= i < notes.len(),
    ensures
        spec_verify_owner(notes, notes[i].note_id, expected_user_id) == if expected_user_id
            == notes[i].user_id {
            Ok::<Note, Error>(notes[i])
        } else {
            Err::<Note, Error>(Error::OwnershipMismatch)
        },
{
    let id = notes[i].note_id;
    lemma_idx_of_note(notes, id);
    let r = idx_of_note(notes, id);
    assert(r >= 0);
    assert(notes[r].note_id == id);
    if r != i {
        assert(notes[r].note_id != notes[i].note_id);
        assert(false);
    }
}

/// Creating a note and reading it back yields a note that is not done
/// and has never been touched (`updated_at` absent).
pub proof fn lemma_create_then_read(
    notes: Seq<Note>,
    note_id: u128,
    user_id: u128,
    title: String,
    body: String,
    now: i64,
)
    requires
        idx_of_note(notes, note_id) < 0,
    ensures
        ({
            let n = new_note(note_id, user_id, title, body, now);
            &&& spec_verify_owner(notes.push(n), note_id, user_id) == Ok::<Note, Error>(n)
            &&& !n.is_done
            &&& n.updated_at is None
        }),
{
    let n = new_note(note_id, user_id, title, body, now);
    let p = notes.push(n);
    lemma_idx_of_note(notes, note_id);
    assert forall|k: int| 0 <= k < notes.len() implies p[k].note_id != note_id by {
        assert(p[k] == notes[k]);
    }
    lemma_idx_of_note_first(p, note_id, notes.len() as int);
}

/// Toggling a note twice returns `is_done` to its original value but
/// leaves `updated_at` set to the second toggle's time, not absent; the
/// text and creation time never change.
pub proof fn lemma_toggle_twice(n: Note, t1: i64, t2: i64)
    ensures
        toggled(toggled(n, t1), t2).is_done == n.is_done,
        toggled(toggled(n, t1), t2).updated_at == Some(t2),
        toggled(toggled(n, t1), t2).title == n.title,
        toggled(toggled(n, t1), t2).body == n.body,
        toggled(toggled(n, t1), t2).created_at == n.created_at,
        toggled(toggled(n, t1), t2).note_id == n.note_id,
        toggled(toggled(n, t1), t2).user_id == n.user_id,
{
}

/// After a toggle the guard still finds the note (now flipped); the
/// toggle never reverts `updated_at` to absent.
pub proof fn lemma_toggle_then_read(notes: Seq<Note>, note_id: u128, user_id: u128, t: i64)
    requires
        forall|a: int, b: int| 0 <= a < b < notes.len() ==> notes[a].note_id != notes[b].note_id,
        spec_verify_owner(notes, note_id, user_id) matches Ok(n),
    ensures
        ({
            let n = spec_verify_owner(notes, note_id, user_id)->Ok_0;
            let after = notes.update(idx_of_note(notes, note_id), toggled(n, t));
            spec_verify_owner(after, note_id, user_id) == Ok::<Note, Error>(toggled(n, t))
        }),
{
    let i = idx_of_note(notes, note_id);
    lemma_idx_of_note(notes, note_id);
    let n = spec_verify_owner(notes, note_id, user_id)->Ok_0;
    let after = notes.update(i, toggled(n, t));
    lemma_idx_of_note_same_ids(notes, after, note_id);
}

/// Deleting a note makes every later lookup of its id fail with
/// `NotFound`, whoever asks.
pub proof fn lemma_delete_then_not_found(notes: Seq<Note>, note_id: u128, any_user_id: u128)
    requires
        forall|a: int, b: int| 0 <= a < b < notes.len() ==> notes[a].note_id != notes[b].note_id,
        spec_verify_owner(notes, note_id, any_user_id) !== Err(Error::NotFound),
    ensures
        spec_verify_owner(
            notes.remove(idx_of_note(notes, note_id)),
            note_id,
            any_user_id,
        ) == Err::<Note, Error>(Error::NotFound),
{
    let i = idx_of_note(notes, note_id);
    lemma_idx_of_note(notes, note_id);
    assert(0 <= i < notes.len());
    let rest = notes.remove(i);
    assert forall|k: int| 0 <= k < rest.len() implies rest[k].note_id != note_id by {
        if k < i {
            assert(rest[k] == notes[k]);
        } else {
            assert(rest[k] == notes[k + 1]);
        }
    }
    lemma_idx_of_note(rest, note_id);
    if idx_of_note(rest, note_id) >= 0 {
        assert(false);
    }
}

/// Creating a note for a user grows that user's list by exactly one; the
/// page's aggregate count rises by one with it.
pub proof fn lemma_create_increments_count(notes: Seq<Note>, n: Note, user_id: u128)
    requires
        n.user_id == user_id,
    ensures
        notes_of(notes.push(n), user_id).len() == notes_of(notes, user_id).len() + 1,
{
    lemma_notes_of_push(notes, n, user_id);
}

/// Display order on three notes, touched at T3, never, and T1 (T3 after
/// T1): any ordered permutation lists the T3 note, then the T1 note,
/// then the untouched note.
pub proof fn lemma_display_order_three(s: Seq<Note>, a: Note, b: Note, c: Note)
    requires
        a.updated_at is Some,
        b.updated_at is None,
        c.updated_at is Some,
        a.updated_at->0 > c.updated_at->0,
        s.to_multiset() == seq![a, b, c].to_multiset(),
        notes_ordered(s),
    ensures
        s == seq![a, c, b],
{
    broadcast use vstd::seq_lib::group_to_multiset_ensures;

    let abc = seq![a, b, c];
    assert(abc =~= Seq::<Note>::empty().push(a).push(b).push(c));
    assert(s.len() == 3) by {
        assert(s.to_multiset().len() == abc.to_multiset().len());
    }
    assert(s.to_multiset().count(a) > 0);
    assert(s.to_multiset().count(b) > 0);
    assert(s.to_multiset().count(c) > 0);
    assert(s.contains(a));
    assert(s.contains(b));
    assert(s.contains(c));
    let ia = choose|k: int| 0 <= k < s.len() && s[k] == a;
    let ib = choose|k: int| 0 <= k < s.len() && s[k] == b;
    let ic = choose|k: int| 0 <= k < s.len() && s[k] == c;
    assert(a != b && a != c && b != c);
    assert(!display_before(b, a));
    assert(!display_before(c, a));
    assert(!display_before(b, c));
    assert(ia != ib && ia != ic && ib != ic);
    assert(ia == 0) by {
        if ia > 0 {
            assert(display_before(s[0], s[ia]));
            assert(s[0] == b || s[0] == c);
        }
    }
    assert(ic == 1) by {
        if ic == 2 {
            assert(ib == 1);
            assert(display_before(s[1], s[2]));
        }
    }
    assert(ib == 2);
    assert(s =~= seq![a, c, b]);
}

} // verus!
