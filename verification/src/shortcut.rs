//! The order of the shortcuts on the taskbar.

use vstd::prelude::*;

verus! {

/// The position of a shortcut that names none.
pub const DEFAULT_POSITION: u32 = 99;

/// What the taskbar needs to know of a shortcut as it was loaded: its name,
/// and the position it asks for, if any.
#[derive(Debug)]
pub struct Entry {
    pub name: String,
    pub position: Option<u32>,
}

/// The position at which a shortcut is sorted.
pub open spec fn rank(entry: Entry) -> int {
    match entry.position {
        Some(position) => position as int,
        None => DEFAULT_POSITION as int,
    }
}

/// The entry at `i` is the first of its name.
pub open spec fn is_first(entries: Seq<Entry>, i: int) -> bool {
    &&& 0 <= i < entries.len()
    &&& forall|j: int| 0 <= j < i ==> (#[trigger] entries[j]).name@ != entries[i].name@
}

/// The entry at `a` stands before the entry at `b` on the taskbar: it has the
/// lower position, or the same position and was loaded earlier.
pub open spec fn stands_before(entries: Seq<Entry>, a: int, b: int) -> bool {
    ||| rank(entries[a]) < rank(entries[b])
    ||| (rank(entries[a]) == rank(entries[b]) && a < b)
}

/// `order` is the taskbar order of `entries` as far as the first `upto` of
/// them go: it holds the index of each entry that is the first of its name,
/// and no other, each before those that it stands before.
pub open spec fn is_taskbar_order(entries: Seq<Entry>, upto: int, order: Seq<usize>) -> bool {
    &&& forall|k: int| 0 <= k < order.len() ==> (#[trigger] order[k]) < upto && is_first(entries, order[k] as int)
    &&& forall|i: int| 0 <= i < upto && is_first(entries, i) ==> order.contains(i as usize)
    &&& forall|k: int, l: int|
        0 <= k < l < order.len() ==> stands_before(
            entries,
            (#[trigger] order[k]) as int,
            (#[trigger] order[l]) as int,
        )
}

/// The position at which a shortcut is sorted.
fn rank_of(entry: &Entry) -> (r: u32)
    ensures
        r == rank(*entry),
{
    match entry.position {
        Some(position) => position,
        None => DEFAULT_POSITION,
    }
}

/// Whether an earlier entry has the name of the entry at `i`.
fn has_earlier_name(entries: &[Entry], i: usize) -> (found: bool)
    requires
        i < entries.len(),
    ensures
        found == !is_first(entries@, i as int),
{
    let mut j: usize = 0;
    while j < i
        invariant
            j <= i < entries.len(),
            forall|k: int| 0 <= k < j ==> (#[trigger] entries@[k]).name@ != entries@[i as int].name@,
        decreases i - j,
    {
        if entries[j].name == entries[i].name {
            return true;
        }
        j = j + 1;
    }
    false
}

/// The shortcuts of the taskbar, as indices into `entries`: of several
/// entries with one name only the first is kept, and the kept ones are ordered
/// by position, those without one at 99, and by the order of loading where
/// positions are equal.
pub fn taskbar_order(entries: &[Entry]) -> (order: Vec<usize>)
    ensures
        is_taskbar_order(entries@, entries.len() as int, order@),
{
    let mut order: Vec<usize> = Vec::new();
    let mut i: usize = 0;
    while i < entries.len()
        invariant
            i <= entries.len(),
            is_taskbar_order(entries@, i as int, order@),
        decreases entries.len() - i,
    {
        if !has_earlier_name(entries, i) {
            let key = rank_of(&entries[i]);
            let mut at: usize = 0;
            while at < order.len() && rank_of(&entries[order[at]]) <= key
                invariant
                    i < entries.len(),
                    at <= order.len(),
                    key == rank(entries@[i as int]),
                    is_taskbar_order(entries@, i as int, order@),
                    forall|k: int| 0 <= k < at ==> rank(entries@[(#[trigger] order@[k]) as int]) <= key,
                decreases order.len() - at,
            {
                at = at + 1;
            }
            let ghost before = order@;
            order.insert(at, i);
            proof {
                let after = order@;
                assert forall|k: int| 0 <= k < after.len() implies (#[trigger] after[k]) < i + 1
                    && is_first(entries@, after[k] as int) by {
                    if k < at {
                        assert(after[k] == before[k]);
                    } else if k > at {
                        assert(after[k] == before[k - 1]);
                    }
                }
                assert forall|j: int| 0 <= j < i + 1 && is_first(entries@, j) implies after.contains(
                    j as usize,
                ) by {
                    if j == i {
                        assert(after[at as int] == i);
                    } else {
                        let k = choose|k: int| 0 <= k < before.len() && before[k] == j as usize;
                        if k < at {
                            assert(after[k] == before[k]);
                        } else {
                            assert(after[k + 1] == before[k]);
                        }
                    }
                }
                assert forall|k: int, l: int| 0 <= k < l < after.len() implies stands_before(
                    entries@,
                    (#[trigger] after[k]) as int,
                    (#[trigger] after[l]) as int,
                ) by {
                    let a = if k < at {
                        before[k]
                    } else if k == at {
                        i
                    } else {
                        before[k - 1]
                    };
                    let b = if l < at {
                        before[l]
                    } else if l == at {
                        i
                    } else {
                        before[l - 1]
                    };
                    assert(after[k] == a && after[l] == b);
                    if l == at {
                        assert(before[k] < i);
                    } else if k == at {
                        assert(rank(entries@[before[at as int] as int]) > key);
                        if l - 1 > at {
                            assert(stands_before(
                                entries@,
                                before[at as int] as int,
                                before[l - 1] as int,
                            ));
                        }
                    }
                }
            }
        } else {
            assert(is_taskbar_order(entries@, i + 1, order@));
        }
        i = i + 1;
    }
    order
}

/// The taskbar order of a list of entries is unique: two orders of the same
/// entries are the same list.
pub proof fn lemma_taskbar_order_unique(entries: Seq<Entry>, first: Seq<usize>, second: Seq<usize>)
    requires
        is_taskbar_order(entries, entries.len() as int, first),
        is_taskbar_order(entries, entries.len() as int, second),
    ensures
        first == second,
    decreases first.len() + second.len(),
{
    if first.len() == 0 {
        if second.len() > 0 {
            assert(first.contains(second[0]));
        }
        assert(first =~= second);
    } else if second.len() == 0 {
        assert(second.contains(first[0]));
    } else {
        lemma_order_prefix(entries, first, second, first.len() as int);
        lemma_order_prefix(entries, second, first, second.len() as int);
        assert(first =~= second);
    }
}

/// Two taskbar orders of the same entries agree on their first `n` places.
proof fn lemma_order_prefix(entries: Seq<Entry>, first: Seq<usize>, second: Seq<usize>, n: int)
    requires
        is_taskbar_order(entries, entries.len() as int, first),
        is_taskbar_order(entries, entries.len() as int, second),
        0 <= n <= first.len(),
    ensures
        n <= second.len(),
        forall|k: int| 0 <= k < n ==> first[k] == second[k],
    decreases n,
{
    if n > 0 {
        lemma_order_prefix(entries, first, second, n - 1);
        let k = n - 1;
        let x = first[k];
        assert(second.contains(x));
        let l = choose|l: int| 0 <= l < second.len() && second[l] == x;
        if l < k {
            assert(first[l] == second[l]);
            assert(stands_before(entries, first[l] as int, first[k] as int));
        } else if l > k {
            let y = second[k];
            assert(first.contains(y));
            let m = choose|m: int| 0 <= m < first.len() && first[m] == y;
            assert(stands_before(entries, second[k] as int, second[l] as int));
            if m < k {
                assert(first[m] == second[m]);
                assert(stands_before(entries, second[m] as int, second[k] as int));
            } else if m > k {
                assert(stands_before(entries, first[k] as int, first[m] as int));
            }
        }
    }
}

} // verus!
