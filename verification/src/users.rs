use vstd::prelude::*;

use crate::model::Note;
use crate::model::User;
use crate::model::UserCount;
use crate::model::idx_of_user;
use crate::model::notes_of;
use crate::model::lemma_notes_of_push;
use crate::order::counts_ordered;
use crate::order::sort_user_counts;
use crate::render::spec_users_page;
use crate::render::users_page;
use crate::store::Store;

verus! {

/// One listing row per user, in store order: the user and the number of
/// notes it owns (zero when it owns none).
pub open spec fn user_counts(users: Seq<User>, notes: Seq<Note>) -> Seq<UserCount> {
    Seq::new(
        users.len(),
        |i: int|
            UserCount {
                user_id: users[i].user_id,
                name: users[i].name,
                notes_count: notes_of(notes, users[i].user_id).len() as u64,
            },
    )
}

/// The sum of the per-user note counts, user by user.
pub open spec fn sum_counts(users: Seq<User>, notes: Seq<Note>) -> nat
    decreases users.len(),
{
    if users.len() == 0 {
        0
    } else {
        notes_of(notes, users[0].user_id).len() + sum_counts(users.drop_first(), notes)
    }
}

/// How many users carry the given id.
pub open spec fn count_id(users: Seq<User>, id: u128) -> nat
    decreases users.len(),
{
    if users.len() == 0 {
        0nat
    } else {
        (if users[0].user_id == id {
            1nat
        } else {
            0nat
        }) + count_id(users.drop_first(), id)
    }
}

pub proof fn lemma_sum_counts_empty(users: Seq<User>, notes: Seq<Note>)
    requires
        notes.len() == 0,
    ensures
        sum_counts(users, notes) == 0,
    decreases users.len(),
{
    if users.len() > 0 {
        lemma_sum_counts_empty(users.drop_first(), notes);
    }
}

pub proof fn lemma_sum_counts_push(users: Seq<User>, notes: Seq<Note>, n: Note)
    ensures
        sum_counts(users, notes.push(n)) == sum_counts(users, notes) + count_id(users, n.user_id),
    decreases users.len(),
{
    if users.len() > 0 {
        lemma_notes_of_push(notes, n, users[0].user_id);
        lemma_sum_counts_push(users.drop_first(), notes, n);
    }
}

pub proof fn lemma_count_id(users: Seq<User>, id: u128)
    requires
        forall|i: int, j: int| 0 <= i < j < users.len() ==> users[i].user_id != users[j].user_id,
    ensures
        idx_of_user(users, id) >= 0 ==> count_id(users, id) == 1,
        idx_of_user(users, id) < 0 ==> count_id(users, id) == 0,
    decreases users.len(),
{
    if users.len() > 0 {
        let rest = users.drop_first();
        assert forall|i: int, j: int|
            0 <= i < j < rest.len() implies rest[i].user_id != rest[j].user_id by {
            assert(rest[i] == users[i + 1]);
            assert(rest[j] == users[j + 1]);
        }
        lemma_count_id(rest, id);
        if users[0].user_id == id {
            crate::model::lemma_idx_of_user(rest, id);
            if idx_of_user(rest, id) >= 0 {
                let k = idx_of_user(rest, id);
                assert(rest[k] == users[k + 1]);
                assert(users[0].user_id == users[k + 1].user_id);
                assert(false);
            }
        }
    }
}

/// Every note has exactly one owning user, so the per-user counts sum to
/// the total number of notes.
pub proof fn lemma_sum_counts_total(users: Seq<User>, notes: Seq<Note>)
    requires
        forall|i: int, j: int| 0 <= i < j < users.len() ==> users[i].user_id != users[j].user_id,
        forall|k: int| 0 <= k < notes.len() ==> idx_of_user(users, #[trigger] notes[k].user_id) >= 0,
    ensures
        sum_counts(users, notes) == notes.len(),
    decreases notes.len(),
{
    if notes.len() == 0 {
        lemma_sum_counts_empty(users, notes);
    } else {
        let init = notes.drop_last();
        let n = notes.last();
        assert(notes =~= init.push(n));
        assert forall|k: int|
            0 <= k < init.len() implies idx_of_user(users, #[trigger] init[k].user_id) >= 0 by {
            assert(init[k] == notes[k]);
        }
        lemma_sum_counts_total(users, init);
        lemma_sum_counts_push(users, init, n);
        assert(idx_of_user(users, notes[notes.len() - 1].user_id) >= 0);
        lemma_count_id(users, n.user_id);
    }
}

/// Counts the notes owned by one user.
fn count_notes(store: &Store, user_id: u128) -> (c: usize)
    ensures
        c as nat == notes_of(store.notes@, user_id).len(),
{
    let mut c: usize = 0;
    let mut k: usize = 0;
    while k < store.notes.len()
        invariant
            k <= store.notes@.len(),
            c <= k,
            c as nat == notes_of(store.notes@.take(k as int), user_id).len(),
        decreases store.notes@.len() - k,
    {
        proof {
            lemma_notes_of_push(store.notes@.take(k as int), store.notes@[k as int], user_id);
            assert(store.notes@.take((k + 1) as int) =~= store.notes@.take(k as int).push(
                store.notes@[k as int],
            ));
        }
        if store.notes[k].user_id == user_id {
            c += 1;
        }
        k += 1;
    }
    proof {
        assert(store.notes@.take(store.notes@.len() as int) =~= store.notes@);
    }
    c
}

/// Users list: every user appears once with its note count (a left join:
/// zero-note users included), ordered by count descending, under
/// aggregate totals; the total note count equals the sum over all users,
/// which is the number of notes in the store.
pub fn h_users(store: &Store) -> (r: String)
    requires
        store.wf(),
    ensures
        sum_counts(store.users@, store.notes@) == store.notes@.len(),
        exists|rows: Seq<UserCount>|
            {
                &&& #[trigger] rows.to_multiset() == user_counts(
                    store.users@,
                    store.notes@,
                ).to_multiset()
                &&& counts_ordered(rows)
                &&& r@ == spec_users_page(
                    sum_counts(store.users@, store.notes@) as u64,
                    rows,
                )
            },
{
    proof {
        lemma_sum_counts_total(store.users@, store.notes@);
    }
    let ghost all = user_counts(store.users@, store.notes@);
    let n_notes = store.notes.len();
    let mut rows: Vec<UserCount> = Vec::new();
    let mut total: u64 = 0;
    let mut i: usize = 0;
    proof {
        assert(store.users@.skip(0) =~= store.users@);
    }
    while i < store.users.len()
        invariant
            store.wf(),
            i <= store.users@.len(),
            n_notes as nat == store.notes@.len(),
            all == user_counts(store.users@, store.notes@),
            rows@ == all.take(i as int),
            total as nat + sum_counts(store.users@.skip(i as int), store.notes@) == sum_counts(
                store.users@,
                store.notes@,
            ),
            sum_counts(store.users@, store.notes@) == store.notes@.len(),
        decreases store.users@.len() - i,
    {
        let c = count_notes(store, store.users[i].user_id);
        proof {
            let sk = store.users@.skip(i as int);
            assert(sk[0] == store.users@[i as int]);
            assert(sk.drop_first() =~= store.users@.skip((i + 1) as int));
            assert(sum_counts(sk, store.notes@) == notes_of(
                store.notes@,
                store.users@[i as int].user_id,
            ).len() + sum_counts(store.users@.skip((i + 1) as int), store.notes@));
            assert(c as nat <= sum_counts(sk, store.notes@));
            assert(total + c <= store.notes@.len());
            assert(store.notes@.len() == n_notes as nat);
        }
        rows.push(UserCount {
            user_id: store.users[i].user_id,
            name: store.users[i].name.clone(),
            notes_count: c as u64,
        });
        total = total + c as u64;
        proof {
            assert(rows@ =~= all.take((i + 1) as int));
        }
        i += 1;
    }
    proof {
        assert(store.users@.skip(store.users@.len() as int) =~= Seq::<User>::empty());
        assert(all.take(store.users@.len() as int) =~= all);
        assert(total as nat == sum_counts(store.users@, store.notes@));
    }
    let sorted = sort_user_counts(rows);
    let page = users_page(total, &sorted);
    proof {
        assert(sorted@.to_multiset() == all.to_multiset());
        assert(counts_ordered(sorted@));
    }
    page
}

} // verus!
