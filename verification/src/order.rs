use vstd::multiset::Multiset;
use vstd::prelude::*;

use crate::model::Note;
use crate::model::UserCount;

verus! {

/// Display order of two notes: most-recently-touched first (by
/// `updated_at` descending), untouched notes after all touched ones,
/// ties and untouched notes by `created_at` descending.
pub open spec fn display_before(a: Note, b: Note) -> bool {
    match (a.updated_at, b.updated_at) {
        (Some(x), Some(y)) => x > y || (x == y && a.created_at >= b.created_at),
        (Some(_), None) => true,
        (None, Some(_)) => false,
        (None, None) => a.created_at >= b.created_at,
    }
}

/// The whole sequence is in display order.
pub open spec fn notes_ordered(s: Seq<Note>) -> bool {
    forall|i: int, j: int| 0 <= i < j < s.len() ==> display_before(s[i], s[j])
}

pub proof fn lemma_display_total(a: Note, b: Note)
    ensures
        display_before(a, b) || display_before(b, a),
{
}

pub proof fn lemma_display_trans(a: Note, b: Note, c: Note)
    requires
        display_before(a, b),
        display_before(b, c),
    ensures
        display_before(a, c),
{
}

fn display_before_exec(a: &Note, b: &Note) -> (r: bool)
    ensures
        r == display_before(*a, *b),
{
    match (a.updated_at, b.updated_at) {
        (Some(x), Some(y)) => x > y || (x == y && a.created_at >= b.created_at),
        (Some(_), None) => true,
        (None, Some(_)) => false,
        (None, None) => a.created_at >= b.created_at,
    }
}

/// Sorts notes into display order (insertion sort; the result is a
/// permutation of the input).
pub fn sort_notes(notes: Vec<Note>) -> (r: Vec<Note>)
    ensures
        r@.to_multiset() == notes@.to_multiset(),
        r@.len() == notes@.len(),
        notes_ordered(r@),
{
    let ghost orig = notes@;
    let mut v = notes;
    let mut r: Vec<Note> = Vec::new();
    proof {
        broadcast use vstd::seq_lib::group_to_multiset_ensures;

    }
    while v.len() > 0
        invariant
            r@.to_multiset().add(v@.to_multiset()) =~= orig.to_multiset(),
            r@.len() + v@.len() == orig.len(),
            notes_ordered(r@),
        decreases v.len(),
    {
        proof {
            broadcast use vstd::seq_lib::group_to_multiset_ensures;

        }
        let ghost v0 = v@;
        let ghost r0 = r@;
        let x = v.remove(0);
        proof {
            assert(v0[0] == x);
            assert(v0.remove(0) == v@);
            assert(v@.to_multiset() =~= v0.to_multiset().remove(x));
            assert(v0.to_multiset().count(x) > 0);
        }
        let mut j: usize = 0;
        loop
            invariant_except_break
                j <= r.len(),
                r@ == r0,
                forall|k: int| 0 <= k < j ==> display_before(r@[k], x),
            ensures
                j <= r0.len(),
                r@ == r0,
                forall|k: int| 0 <= k < j ==> display_before(r0[k], x),
                j < r0.len() ==> !display_before(r0[j as int], x),
            decreases r.len() - j,
        {
            if j == r.len() {
                break ;
            }
            if !display_before_exec(&r[j], &x) {
                break ;
            }
            j += 1;
        }
        proof {
            if (j as int) < r0.len() {
                lemma_display_total(r0[j as int], x);
            }
        }
        r.insert(j, x);
        proof {
            broadcast use vstd::seq_lib::group_to_multiset_ensures;

            assert(r@ == r0.insert(j as int, x));
            vstd::seq_lib::to_multiset_insert(r0, j as int, x);
            assert(r@.to_multiset().add(v@.to_multiset()) =~= orig.to_multiset());
            assert forall|m: int, n: int| 0 <= m < n < r@.len() implies display_before(
                r@[m],
                r@[n],
            ) by {
                if n < j {
                    assert(r@[m] == r0[m] && r@[n] == r0[n]);
                } else if n == j {
                    assert(r@[m] == r0[m]);
                    assert(display_before(r0[m], x));
                } else {
                    if m < j {
                        assert(r@[m] == r0[m] && r@[n] == r0[n - 1]);
                        if n - 1 == j as int {
                            if (j as int) < r0.len() {
                                assert(display_before(r0[m], r0[j as int]));
                            }
                        }
                    } else if m == j {
                        assert(r@[n] == r0[n - 1]);
                        if n - 1 == j as int {
                            assert(display_before(x, r0[j as int]));
                        } else {
                            assert(display_before(x, r0[j as int]));
                            assert(display_before(r0[j as int], r0[n - 1]));
                            lemma_display_trans(x, r0[j as int], r0[n - 1]);
                        }
                    } else {
                        assert(r@[m] == r0[m - 1] && r@[n] == r0[n - 1]);
                    }
                }
            }
        }
    }
    proof {
        broadcast use vstd::seq_lib::group_to_multiset_ensures;

        assert(v@.to_multiset() =~= Multiset::<Note>::empty());
        assert(r@.to_multiset().add(Multiset::<Note>::empty()) =~= r@.to_multiset());
    }
    r
}

/// Users-page order: larger note counts first (ties keep no particular
/// order).
pub open spec fn count_before(a: UserCount, b: UserCount) -> bool {
    a.notes_count >= b.notes_count
}

/// The whole sequence has note counts descending.
pub open spec fn counts_ordered(s: Seq<UserCount>) -> bool {
    forall|i: int, j: int| 0 <= i < j < s.len() ==> count_before(s[i], s[j])
}

/// Sorts users-page rows by note count, largest first (insertion sort;
/// the result is a permutation of the input).
pub fn sort_user_counts(rows: Vec<UserCount>) -> (r: Vec<UserCount>)
    ensures
        r@.to_multiset() == rows@.to_multiset(),
        r@.len() == rows@.len(),
        counts_ordered(r@),
{
    let ghost orig = rows@;
    let mut v = rows;
    let mut r: Vec<UserCount> = Vec::new();
    proof {
        broadcast use vstd::seq_lib::group_to_multiset_ensures;

    }
    while v.len() > 0
        invariant
            r@.to_multiset().add(v@.to_multiset()) =~= orig.to_multiset(),
            r@.len() + v@.len() == orig.len(),
            counts_ordered(r@),
        decreases v.len(),
    {
        proof {
            broadcast use vstd::seq_lib::group_to_multiset_ensures;

        }
        let ghost v0 = v@;
        let ghost r0 = r@;
        let x = v.remove(0);
        proof {
            assert(v0[0] == x);
            assert(v0.remove(0) == v@);
            assert(v@.to_multiset() =~= v0.to_multiset().remove(x));
            assert(v0.to_multiset().count(x) > 0);
        }
        let mut j: usize = 0;
        loop
            invariant_except_break
                j <= r.len(),
                r@ == r0,
                forall|k: int| 0 <= k < j ==> count_before(r@[k], x),
            ensures
                j <= r0.len(),
                r@ == r0,
                forall|k: int| 0 <= k < j ==> count_before(r0[k], x),
                j < r0.len() ==> !count_before(r0[j as int], x),
            decreases r.len() - j,
        {
            if j == r.len() {
                break ;
            }
            if r[j].notes_count < x.notes_count {
                break ;
            }
            j += 1;
        }
        r.insert(j, x);
        proof {
            broadcast use vstd::seq_lib::group_to_multiset_ensures;

            assert(r@ == r0.insert(j as int, x));
            vstd::seq_lib::to_multiset_insert(r0, j as int, x);
            assert(r@.to_multiset().add(v@.to_multiset()) =~= orig.to_multiset());
            assert forall|m: int, n: int| 0 <= m < n < r@.len() implies count_before(
                r@[m],
                r@[n],
            ) by {
                if n < j {
                    assert(r@[m] == r0[m] && r@[n] == r0[n]);
                } else if n == j {
                    assert(r@[m] == r0[m]);
                    assert(count_before(r0[m], x));
                } else {
                    if m < j {
                        assert(r@[m] == r0[m] && r@[n] == r0[n - 1]);
                        if n - 1 == j as int {
                            if (j as int) < r0.len() {
                                assert(count_before(r0[m], r0[j as int]));
                            }
                        }
                    } else if m == j {
                        assert(r@[n] == r0[n - 1]);
                        assert(!count_before(r0[j as int], x));
                        assert(count_before(x, r0[j as int]));
                        if n - 1 > j as int {
                            assert(count_before(r0[j as int], r0[n - 1]));
                        }
                    } else {
                        assert(r@[m] == r0[m - 1] && r@[n] == r0[n - 1]);
                    }
                }
            }
        }
    }
    proof {
        broadcast use vstd::seq_lib::group_to_multiset_ensures;

        assert(v@.to_multiset() =~= Multiset::<UserCount>::empty());
        assert(r@.to_multiset().add(Multiset::<UserCount>::empty()) =~= r@.to_multiset());
    }
    r
}

} // verus!
