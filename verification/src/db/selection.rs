//! Picking rows: by identity, as children of picked rows, and as everything
//! that hangs under picked rows of the same table. A pick is a vector of
//! booleans, one for each row of a table.

use vstd::prelude::*;
use crate::commands::repository::EntityType;
use crate::db::record::Record;

verus! {

/// The pick that holds, where `on` is set, the rows with identity `id`, and
/// no row otherwise.
pub open spec fn picked_by_id<T: Record>(rows: Seq<T>, on: bool, id: Seq<char>) -> Seq<bool> {
    Seq::new(rows.len(), |i: int| on && rows[i].key() == id)
}

/// Whether row `j` of `parents` is picked and `child` hangs under it.
pub open spec fn is_picked_parent<P: Record, C: Record>(
    parents: Seq<P>,
    picked: Seq<bool>,
    kind: EntityType,
    child: C,
    j: int,
) -> bool {
    0 <= j < parents.len() && picked[j] && child.link(kind) == Some(parents[j].key())
}

/// Whether `child` hangs under some picked row of `parents`, the table `kind`.
pub open spec fn has_picked_parent<P: Record, C: Record>(
    parents: Seq<P>,
    picked: Seq<bool>,
    kind: EntityType,
    child: C,
) -> bool {
    exists|j: int| is_picked_parent(parents, picked, kind, child, j)
}

/// `seed`, and with it every row of `children` that hangs under a picked row
/// of `parents`.
pub open spec fn with_children<P: Record, C: Record>(
    parents: Seq<P>,
    picked: Seq<bool>,
    kind: EntityType,
    children: Seq<C>,
    seed: Seq<bool>,
) -> Seq<bool> {
    Seq::new(
        children.len(),
        |i: int| seed[i] || has_picked_parent(parents, picked, kind, children[i]),
    )
}

/// Whether row `i` hangs directly under row `j` of the same table.
pub open spec fn hangs_under<T: Record>(rows: Seq<T>, kind: EntityType, i: int, j: int) -> bool {
    0 <= i < rows.len() && 0 <= j < rows.len() && rows[i].link(kind) == Some(rows[j].key())
}

/// Whether row `i` is in `seed` or hangs under a row of `seed` through at
/// most `n` links.
pub open spec fn reaches<T: Record>(
    rows: Seq<T>,
    kind: EntityType,
    seed: Seq<bool>,
    i: int,
    n: nat,
) -> bool
    decreases n,
{
    if n == 0 {
        0 <= i < rows.len() && seed[i]
    } else {
        reaches(rows, kind, seed, i, (n - 1) as nat) || exists|j: int|
            #[trigger] hangs_under(rows, kind, i, j) && reaches(rows, kind, seed, j, (n - 1) as nat)
    }
}

/// Whether row `i` is in `seed` or hangs under a row of `seed` through any
/// number of links.
pub open spec fn descends<T: Record>(rows: Seq<T>, kind: EntityType, seed: Seq<bool>, i: int) -> bool {
    exists|n: nat| reaches(rows, kind, seed, i, n)
}

/// `seed`, and with it every row that hangs under a row of `seed`, directly
/// or through other rows of the table.
pub open spec fn with_descendants<T: Record>(rows: Seq<T>, kind: EntityType, seed: Seq<bool>) -> Seq<bool> {
    Seq::new(rows.len(), |i: int| descends(rows, kind, seed, i))
}

/// Whether `picked` holds, with each of its rows, the rows that hang under it.
pub open spec fn closed_under_links<T: Record>(rows: Seq<T>, kind: EntityType, picked: Seq<bool>) -> bool {
    forall|i: int, j: int| #[trigger] hangs_under(rows, kind, i, j) && picked[j] ==> picked[i]
}

/// A pick that holds `seed` and is closed under links holds every row that
/// descends from `seed`.
pub proof fn closed_pick_holds_descendants<T: Record>(
    rows: Seq<T>,
    kind: EntityType,
    seed: Seq<bool>,
    picked: Seq<bool>,
    i: int,
    n: nat,
)
    requires
        picked.len() == rows.len(),
        seed.len() == rows.len(),
        forall|k: int| 0 <= k < rows.len() && seed[k] ==> picked[k],
        closed_under_links(rows, kind, picked),
        reaches(rows, kind, seed, i, n),
    ensures
        0 <= i < rows.len(),
        picked[i],
    decreases n,
{
    if n == 0 {
    } else {
        if reaches(rows, kind, seed, i, (n - 1) as nat) {
            closed_pick_holds_descendants(rows, kind, seed, picked, i, (n - 1) as nat);
        } else {
            let j = choose|j: int|
                #[trigger] hangs_under(rows, kind, i, j) && reaches(rows, kind, seed, j, (n - 1) as nat);
            closed_pick_holds_descendants(rows, kind, seed, picked, j, (n - 1) as nat);
        }
    }
}

/// How many rows of `picked` are set.
pub open spec fn count_picked(picked: Seq<bool>) -> nat
    decreases picked.len(),
{
    if picked.len() == 0 {
        0
    } else {
        count_picked(picked.drop_last()) + if picked.last() { 1nat } else { 0nat }
    }
}

proof fn count_picked_bounded(picked: Seq<bool>)
    ensures
        count_picked(picked) <= picked.len(),
    decreases picked.len(),
{
    if picked.len() > 0 {
        count_picked_bounded(picked.drop_last());
    }
}

proof fn count_picked_grows(picked: Seq<bool>, i: int)
    requires
        0 <= i < picked.len(),
        !picked[i],
    ensures
        count_picked(picked.update(i, true)) == count_picked(picked) + 1,
    decreases picked.len(),
{
    let after = picked.update(i, true);
    if i == picked.len() - 1 {
        assert(after.drop_last() =~= picked.drop_last());
    } else {
        count_picked_grows(picked.drop_last(), i);
        assert(after.drop_last() =~= picked.drop_last().update(i, true));
    }
}

/// The pick of the rows with identity `id` where `on` is set, of no row
/// otherwise.
pub fn pick_by_id<T: Record>(rows: &Vec<T>, on: bool, id: &str) -> (picked: Vec<bool>)
    ensures
        picked@ == picked_by_id(rows@, on, id@),
{
    let mut picked: Vec<bool> = Vec::new();
    let mut i: usize = 0;
    while i < rows.len()
        invariant
            i <= rows.len(),
            picked@ == picked_by_id(rows@, on, id@).take(i as int),
        decreases rows.len() - i,
    {
        let hit = on && crate::text::str_eq(rows[i].id().as_str(), id);
        picked.push(hit);
        assert(picked@ =~= picked_by_id(rows@, on, id@).take(i + 1));
        i += 1;
    }
    assert(picked@ =~= picked_by_id(rows@, on, id@));
    picked
}

/// Whether `child` hangs under a picked row of `parents`.
pub fn under_picked_parent<P: Record, C: Record>(
    parents: &Vec<P>,
    picked: &Vec<bool>,
    kind: EntityType,
    child: &C,
) -> (r: bool)
    requires
        picked.len() == parents.len(),
    ensures
        r == has_picked_parent(parents@, picked@, kind, *child),
{
    let mut j: usize = 0;
    while j < parents.len()
        invariant
            j <= parents.len(),
            picked.len() == parents.len(),
            forall|k: int| 0 <= k < j ==> !is_picked_parent(parents@, picked@, kind, *child, k),
        decreases parents.len() - j,
    {
        if picked[j] && child.links_to(kind, parents[j].id().as_str()) {
            assert(is_picked_parent(parents@, picked@, kind, *child, j as int));
            return true;
        }
        j += 1;
    }
    false
}

/// `seed`, and with it every row of `children` that hangs under a picked row
/// of `parents`.
pub fn pick_children<P: Record, C: Record>(
    parents: &Vec<P>,
    picked: &Vec<bool>,
    kind: EntityType,
    children: &Vec<C>,
    seed: &Vec<bool>,
) -> (r: Vec<bool>)
    requires
        picked.len() == parents.len(),
        seed.len() == children.len(),
    ensures
        r@ == with_children(parents@, picked@, kind, children@, seed@),
{
    let ghost want = with_children(parents@, picked@, kind, children@, seed@);
    let mut r: Vec<bool> = Vec::new();
    let mut i: usize = 0;
    while i < children.len()
        invariant
            i <= children.len(),
            picked.len() == parents.len(),
            seed.len() == children.len(),
            want == with_children(parents@, picked@, kind, children@, seed@),
            r@ == want.take(i as int),
        decreases children.len() - i,
    {
        let hit = seed[i] || under_picked_parent(parents, picked, kind, &children[i]);
        r.push(hit);
        assert(r@ =~= want.take(i + 1));
        i += 1;
    }
    assert(r@ =~= want);
    r
}

/// `seed`, and with it every row that hangs under a row of `seed`, directly
/// or through other rows of the table.
pub fn pick_descendants<T: Record>(rows: &Vec<T>, kind: EntityType, seed: &Vec<bool>) -> (picked: Vec<bool>)
    requires
        seed.len() == rows.len(),
    ensures
        picked@ == with_descendants(rows@, kind, seed@),
{
    let mut picked: Vec<bool> = seed.clone();
    assert(picked@ =~= seed@);
    assert forall|k: int| 0 <= k < rows.len() && picked@[k] implies descends(rows@, kind, seed@, k) by {
        assert(reaches(rows@, kind, seed@, k, 0));
    }
    let mut changed = true;
    proof {
        count_picked_bounded(picked@);
    }
    while changed
        invariant
            picked.len() == rows.len(),
            seed.len() == rows.len(),
            forall|k: int| 0 <= k < rows.len() && seed@[k] ==> picked@[k],
            forall|k: int| 0 <= k < rows.len() && picked@[k] ==> descends(rows@, kind, seed@, k),
            !changed ==> closed_under_links(rows@, kind, picked@),
            count_picked(picked@) <= rows.len(),
        decreases rows.len() - count_picked(picked@) + if changed { 1int } else { 0int },
    {
        changed = false;
        let ghost at_start = picked@;
        let mut i: usize = 0;
        while i < rows.len()
            invariant
                i <= rows.len(),
                picked.len() == rows.len(),
                seed.len() == rows.len(),
                at_start.len() == rows.len(),
                forall|k: int| 0 <= k < rows.len() && seed@[k] ==> picked@[k],
                forall|k: int| 0 <= k < rows.len() && picked@[k] ==> descends(rows@, kind, seed@, k),
                count_picked(picked@) <= rows.len(),
                !changed ==> picked@ == at_start,
                changed ==> count_picked(picked@) > count_picked(at_start),
                !changed ==> forall|a: int, b: int|
                    0 <= a < i && #[trigger] hangs_under(rows@, kind, a, b) && picked@[b] ==> picked@[a],
            decreases rows.len() - i,
        {
            if !picked[i] {
                let mut j: usize = 0;
                let mut found = false;
                while j < rows.len() && !found
                    invariant
                        j <= rows.len(),
                        i < rows.len(),
                        picked.len() == rows.len(),
                        !found ==> forall|b: int|
                            0 <= b < j && #[trigger] hangs_under(rows@, kind, i as int, b) ==> !picked@[b],
                        found ==> exists|b: int|
                            #[trigger] hangs_under(rows@, kind, i as int, b) && picked@[b],
                    decreases rows.len() - j + if found { 0int } else { 1int },
                {
                    if picked[j] && rows[i].links_to(kind, rows[j].id().as_str()) {
                        assert(hangs_under(rows@, kind, i as int, j as int));
                        found = true;
                    } else {
                        j += 1;
                    }
                }
                if found {
                    proof {
                        let b = choose|b: int| #[trigger] hangs_under(rows@, kind, i as int, b) && picked@[b];
                        let n = choose|n: nat| reaches(rows@, kind, seed@, b, n);
                        assert(reaches(rows@, kind, seed@, i as int, n + 1));
                        count_picked_grows(picked@, i as int);
                        count_picked_bounded(picked@.update(i as int, true));
                    }
                    picked.set(i, true);
                    changed = true;
                }
            }
            i += 1;
        }
    }
    let ghost want = with_descendants(rows@, kind, seed@);
    assert forall|k: int| 0 <= k < rows.len() implies picked@[k] == want[k] by {
        if descends(rows@, kind, seed@, k) {
            let n = choose|n: nat| reaches(rows@, kind, seed@, k, n);
            closed_pick_holds_descendants(rows@, kind, seed@, picked@, k, n);
        }
    }
    assert(picked@ =~= want);
    picked
}

} // verus!
