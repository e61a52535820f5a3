//! Lists of values under names, to stand for maps.
//!
//! A map has each name once and knows no order. A list that stands for one
//! has its entries in the order of their names, so that two lists stand for the
//! same map exactly when they hold the same.

use crate::text::{
    comes_before, no_text_before_itself, one_text_comes_first, text_before, text_before_carries_on,
};
use vstd::prelude::*;

verus! {

/// Whether no name stands twice.
pub open spec fn names_are_distinct<V>(named: Seq<(Seq<char>, V)>) -> bool {
    forall|i: int, j: int| 0 <= i < j < named.len() ==> named[i].0 != named[j].0
}

/// Whether the entries stand in the order of their names, each name before the
/// next.
pub open spec fn names_ascend<V>(named: Seq<(Seq<char>, V)>) -> bool {
    forall|i: int, j: int| 0 <= i < j < named.len() ==> text_before(named[i].0, named[j].0)
}

/// Where an entry under `name` goes among entries that stand in the order of
/// their names: behind the last whose name comes before it.
pub open spec fn place_of<V>(named: Seq<(Seq<char>, V)>, name: Seq<char>) -> int
    decreases named.len(),
{
    if named.len() == 0 || text_before(named.last().0, name) {
        named.len() as int
    } else {
        place_of(named.drop_last(), name)
    }
}

/// The entries with one more, at its place.
pub open spec fn insert_by_name<V>(named: Seq<(Seq<char>, V)>, entry: (Seq<char>, V)) -> Seq<
    (Seq<char>, V),
> {
    named.insert(place_of(named, entry.0), entry)
}

/// The entries in the order of their names: each put at its place among those
/// before it.
pub open spec fn sort_by_name<V>(named: Seq<(Seq<char>, V)>) -> Seq<(Seq<char>, V)>
    decreases named.len(),
{
    if named.len() == 0 {
        Seq::empty()
    } else {
        insert_by_name(sort_by_name(named.drop_last()), named.last())
    }
}

/// The place of an entry lies within the list; the entry before it, if there
/// is one, has a name that comes before, and no entry from it on has.
pub proof fn place_is_behind_the_earlier<V>(named: Seq<(Seq<char>, V)>, name: Seq<char>)
    ensures
        0 <= place_of(named, name) <= named.len(),
        place_of(named, name) > 0 ==> text_before(named[place_of(named, name) - 1].0, name),
        forall|k: int| place_of(named, name) <= k < named.len() ==> !text_before(named[k].0, name),
    decreases named.len(),
{
    if !(named.len() == 0 || text_before(named.last().0, name)) {
        let rest = named.drop_last();
        place_is_behind_the_earlier(rest, name);
        assert forall|k: int| place_of(named, name) <= k < named.len() implies !text_before(
            named[k].0,
            name,
        ) by {
            if k < rest.len() {
                assert(named[k] == rest[k]);
            }
        }
    }
}

/// Entries in the order of their names have no name twice.
pub proof fn ascending_names_are_distinct<V>(named: Seq<(Seq<char>, V)>)
    requires
        names_ascend(named),
    ensures
        names_are_distinct(named),
{
    assert forall|i: int, j: int| 0 <= i < j < named.len() implies named[i].0 != named[j].0 by {
        no_text_before_itself(named[i].0);
    }
}

/// Entries that stand in the order of their names stay as they are.
pub proof fn sorted_stays<V>(named: Seq<(Seq<char>, V)>)
    requires
        names_ascend(named),
    ensures
        sort_by_name(named) == named,
    decreases named.len(),
{
    if named.len() > 0 {
        let rest = named.drop_last();
        sorted_stays(rest);
        if rest.len() > 0 {
            assert(text_before(named[rest.len() - 1].0, named[named.len() - 1].0));
        }
        assert(rest.insert(rest.len() as int, named.last()) =~= named);
    }
}

/// Sorting keeps the entries: as many as before, and each one of those that
/// were there.
pub proof fn sort_keeps_the_entries<V>(named: Seq<(Seq<char>, V)>)
    ensures
        sort_by_name(named).len() == named.len(),
        forall|k: int|
            0 <= k < named.len() ==> exists|i: int|
                0 <= i < named.len() && #[trigger] sort_by_name(named)[k] == named[i],
    decreases named.len(),
{
    if named.len() > 0 {
        let rest = named.drop_last();
        let sorted = sort_by_name(rest);
        sort_keeps_the_entries(rest);
        place_is_behind_the_earlier(sorted, named.last().0);
        let at = place_of(sorted, named.last().0);
        assert forall|k: int| 0 <= k < named.len() implies exists|i: int|
            0 <= i < named.len() && #[trigger] sort_by_name(named)[k] == named[i] by {
            if k == at {
                assert(sort_by_name(named)[k] == named[named.len() - 1]);
            } else {
                let from = if k < at {
                    k
                } else {
                    k - 1
                };
                assert(sort_by_name(named)[k] == sorted[from]);
                let i = choose|i: int| 0 <= i < rest.len() && sorted[from] == rest[i];
                assert(sort_by_name(named)[k] == named[i]);
            }
        }
    }
}

/// One more entry, under a name that is not there yet, leaves the entries in
/// the order of their names.
pub proof fn insert_keeps_the_order<V>(named: Seq<(Seq<char>, V)>, entry: (Seq<char>, V))
    requires
        names_ascend(named),
        forall|i: int| 0 <= i < named.len() ==> named[i].0 != entry.0,
    ensures
        names_ascend(insert_by_name(named, entry)),
{
    place_is_behind_the_earlier(named, entry.0);
    let at = place_of(named, entry.0);
    let more = insert_by_name(named, entry);
    assert forall|i: int, j: int| 0 <= i < j < more.len() implies text_before(
        more[i].0,
        more[j].0,
    ) by {
        if j < at {
            assert(more[i] == named[i] && more[j] == named[j]);
        } else if j == at {
            assert(more[i] == named[i]);
            if i < at - 1 {
                assert(text_before(named[i].0, named[at - 1].0));
                text_before_carries_on(named[i].0, named[at - 1].0, entry.0);
            }
        } else if i == at {
            assert(more[j] == named[j - 1]);
            one_text_comes_first(named[j - 1].0, entry.0);
        } else if i < at {
            assert(more[i] == named[i] && more[j] == named[j - 1]);
        } else {
            assert(more[i] == named[i - 1] && more[j] == named[j - 1]);
        }
    }
}

/// Entries without a name twice stand in the order of their names once they
/// are sorted.
pub proof fn sort_gives_the_order<V>(named: Seq<(Seq<char>, V)>)
    requires
        names_are_distinct(named),
    ensures
        names_ascend(sort_by_name(named)),
    decreases named.len(),
{
    if named.len() > 0 {
        let rest = named.drop_last();
        let sorted = sort_by_name(rest);
        assert(names_are_distinct(rest)) by {
            assert forall|i: int, j: int| 0 <= i < j < rest.len() implies rest[i].0
                != rest[j].0 by {
                assert(named[i].0 != named[j].0);
            }
        }
        sort_gives_the_order(rest);
        sort_keeps_the_entries(rest);
        assert forall|k: int| 0 <= k < sorted.len() implies sorted[k].0 != named.last().0 by {
            let i = choose|i: int| 0 <= i < rest.len() && sorted[k] == rest[i];
            assert(named[i].0 != named[named.len() - 1].0);
        }
        insert_keeps_the_order(sorted, named.last());
    }
}

/// Where an entry goes depends on the names alone.
pub proof fn place_goes_by_names<A, B>(
    a: Seq<(Seq<char>, A)>,
    b: Seq<(Seq<char>, B)>,
    name: Seq<char>,
)
    requires
        a.len() == b.len(),
        forall|i: int| 0 <= i < a.len() ==> a[i].0 == b[i].0,
    ensures
        place_of(a, name) == place_of(b, name),
    decreases a.len(),
{
    if a.len() > 0 {
        assert(a.last().0 == b.last().0);
        if !text_before(a.last().0, name) {
            assert forall|i: int| 0 <= i < a.drop_last().len() implies a.drop_last()[i].0
                == b.drop_last()[i].0 by {
                assert(a[i].0 == b[i].0);
            }
            place_goes_by_names(a.drop_last(), b.drop_last(), name);
        }
    }
}

/// The entries of a list, each under the text of its name.
pub open spec fn under_names<V>(list: &Vec<(String, V)>) -> Seq<(Seq<char>, V)> {
    Seq::new(list.len() as nat, |i: int| (list[i].0@, list[i].1))
}

/// Puts an entry at its place among entries that stand in the order of their
/// names, and says where that is.
pub fn insert_named<V>(list: &mut Vec<(String, V)>, name: String, value: V) -> (at: usize)
    ensures
        at <= old(list).len(),
        at == place_of(under_names(old(list)), name@),
        final(list)@ == old(list)@.insert(at as int, (name, value)),
{
    let ghost all = under_names(list);
    let mut at: usize = list.len();
    assert(all.take(at as int) =~= all);
    while at > 0 && !comes_before(list[at - 1].0.as_str(), name.as_str())
        invariant
            at <= list.len(),
            *list == *old(list),
            all == under_names(list),
            place_of(all, name@) == place_of(all.take(at as int), name@),
        decreases at,
    {
        proof {
            assert(all.take(at as int).last() == all[at - 1]);
            assert(all.take(at as int).drop_last() =~= all.take(at - 1));
        }
        at -= 1;
    }
    proof {
        if at > 0 {
            assert(all.take(at as int).last() == all[at - 1]);
        }
    }
    list.insert(at, (name, value));
    at
}

} // verus!
