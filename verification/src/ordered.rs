//! Strictly ascending lists of the members of another list.

use vstd::prelude::*;

verus! {

/// A number that lists are ordered by.
pub trait Ordinal: Copy {
    /// Where the number stands in the order.
    spec fn rank(self) -> int;

    /// No two numbers share a rank.
    proof fn rank_identifies(a: Self, b: Self)
        requires
            a.rank() == b.rank(),
        ensures
            a == b,
    ;

    /// Whether `self` comes before `other`.
    fn ranks_below(self, other: Self) -> (below: bool)
        ensures
            below == (self.rank() < other.rank()),
    ;
}

impl Ordinal for u32 {
    open spec fn rank(self) -> int {
        self as int
    }

    proof fn rank_identifies(a: Self, b: Self) {
    }

    fn ranks_below(self, other: Self) -> (below: bool) {
        self < other
    }
}

impl Ordinal for i32 {
    open spec fn rank(self) -> int {
        self as int
    }

    proof fn rank_identifies(a: Self, b: Self) {
    }

    fn ranks_below(self, other: Self) -> (below: bool) {
        self < other
    }
}

/// Every item comes strictly before those after it.
pub open spec fn ascending<T: Ordinal>(list: Seq<T>) -> bool {
    forall|i: int, j: int|
        0 <= i < j < list.len() ==> (#[trigger] list[i]).rank() < (#[trigger] list[j]).rank()
}

/// `list` holds the members of `of`, each once, in ascending order.
pub open spec fn lists_members<T: Ordinal>(list: Seq<T>, of: Seq<T>) -> bool {
    &&& ascending(list)
    &&& forall|x: T| #[trigger] list.contains(x) <==> of.contains(x)
}

/// The members of `of`, each once, in ascending order.
pub open spec fn sorted_members<T: Ordinal>(of: Seq<T>) -> Seq<T> {
    choose|list: Seq<T>| lists_members(list, of)
}

proof fn push_contains<T>(s: Seq<T>, added: T)
    ensures
        forall|x: T| #[trigger] s.push(added).contains(x) <==> s.contains(x) || x == added,
{
    assert forall|x: T| s.contains(x) || x == added implies #[trigger] s.push(added).contains(
        x,
    ) by {
        if s.contains(x) {
            let i = choose|i: int| 0 <= i < s.len() && s[i] == x;
            assert(s.push(added)[i] == x);
        } else {
            assert(s.push(added)[s.len() as int] == x);
        }
    }
}

proof fn drop_last_contains<T>(s: Seq<T>)
    requires
        s.len() > 0,
    ensures
        forall|x: T| #[trigger] s.contains(x) <==> s.drop_last().contains(x) || x == s.last(),
{
    assert(s =~= s.drop_last().push(s.last()));
    push_contains(s.drop_last(), s.last());
}

/// Two ascending lists with the same members are the same list.
pub proof fn ascending_lists_are_unique<T: Ordinal>(a: Seq<T>, b: Seq<T>)
    requires
        ascending(a),
        ascending(b),
        forall|x: T| #[trigger] a.contains(x) <==> b.contains(x),
    ensures
        a == b,
    decreases a.len(),
{
    if a.len() == 0 {
        if b.len() > 0 {
            assert(b.contains(b[0]));
            assert(a.contains(b[0]));
        }
        assert(a =~= b);
    } else {
        assert(a.contains(a.last()));
        assert(b.contains(a.last()));
        assert(b.contains(b.last()));
        assert(a.contains(b.last()));
        let i = choose|i: int| 0 <= i < b.len() && b[i] == a.last();
        let j = choose|j: int| 0 <= j < a.len() && a[j] == b.last();
        assert(b[i].rank() <= b.last().rank());
        assert(a[j].rank() <= a.last().rank());
        T::rank_identifies(a.last(), b.last());
        drop_last_contains(a);
        drop_last_contains(b);
        let front_a = a.drop_last();
        let front_b = b.drop_last();
        assert forall|x: T| #[trigger] front_a.contains(x) <==> front_b.contains(x) by {
            if front_a.contains(x) {
                let k = choose|k: int| 0 <= k < front_a.len() && front_a[k] == x;
                assert(a[k] == x);
                assert(x.rank() < a.last().rank());
                assert(a.contains(x));
                assert(b.contains(x));
            }
            if front_b.contains(x) {
                let k = choose|k: int| 0 <= k < front_b.len() && front_b[k] == x;
                assert(b[k] == x);
                assert(x.rank() < b.last().rank());
                assert(b.contains(x));
                assert(a.contains(x));
            }
        }
        ascending_lists_are_unique(front_a, front_b);
        assert(a =~= front_a.push(a.last()));
        assert(b =~= front_b.push(b.last()));
    }
}

proof fn list_with_one_more<T: Ordinal>(list: Seq<T>, added: T) -> (longer: Seq<T>)
    requires
        ascending(list),
    ensures
        ascending(longer),
        forall|x: T| #[trigger] longer.contains(x) <==> list.contains(x) || x == added,
        forall|i: int| 0 <= i < longer.len() ==> (#[trigger] longer[i]).rank() <= added.rank()
            || longer[i].rank() <= list.last().rank(),
    decreases list.len(),
{
    if list.len() == 0 {
        push_contains(list, added);
        list.push(added)
    } else if list.last().rank() < added.rank() {
        push_contains(list, added);
        list.push(added)
    } else if list.last().rank() == added.rank() {
        T::rank_identifies(list.last(), added);
        assert(list.contains(list.last()));
        assert forall|i: int| 0 <= i < list.len() implies (#[trigger] list[i]).rank()
            <= added.rank() by {
            if i < list.len() - 1 {
                assert(list[i].rank() < list[list.len() - 1].rank());
            }
        }
        list
    } else {
        let front = list.drop_last();
        let longer_front = list_with_one_more(front, added);
        drop_last_contains(list);
        push_contains(longer_front, list.last());
        assert forall|i: int| 0 <= i < longer_front.len() implies (#[trigger] longer_front[i]).rank()
            < list.last().rank() by {
            assert(longer_front.contains(longer_front[i]));
            if front.contains(longer_front[i]) {
                let k = choose|k: int| 0 <= k < front.len() && front[k] == longer_front[i];
                assert(list[k].rank() < list[list.len() - 1].rank());
            }
        }
        longer_front.push(list.last())
    }
}

/// Every list has its sorted members, and they are what
/// [`sorted_members`] names.
pub proof fn sorted_members_exist<T: Ordinal>(of: Seq<T>)
    ensures
        lists_members(sorted_members(of), of),
    decreases of.len(),
{
    if of.len() == 0 {
        assert(lists_members(Seq::<T>::empty(), of));
    } else {
        let front = of.drop_last();
        sorted_members_exist(front);
        let longer = list_with_one_more(sorted_members(front), of.last());
        drop_last_contains(of);
        assert(lists_members(longer, of));
    }
}

/// A list that holds the members of `of` in ascending order is
/// [`sorted_members`] of it.
pub proof fn sorted_members_are_unique<T: Ordinal>(list: Seq<T>, of: Seq<T>)
    requires
        lists_members(list, of),
    ensures
        list == sorted_members(of),
{
    let named = sorted_members(of);
    assert(lists_members(named, of));
    assert forall|x: T| #[trigger] list.contains(x) <==> named.contains(x) by {}
    ascending_lists_are_unique(list, named);
}

/// Sorting depends on the members alone, not on their order or number.
pub proof fn sorting_ignores_order<T: Ordinal>(a: Seq<T>, b: Seq<T>)
    requires
        forall|x: T| #[trigger] a.contains(x) <==> b.contains(x),
    ensures
        sorted_members(a) == sorted_members(b),
{
    sorted_members_exist(a);
    assert(lists_members(sorted_members(a), b));
    sorted_members_are_unique(sorted_members(a), b);
}

/// Sorting a sorted list changes nothing.
pub proof fn sorting_is_idempotent<T: Ordinal>(of: Seq<T>)
    ensures
        sorted_members(sorted_members(of)) == sorted_members(of),
{
    sorted_members_exist(of);
    assert(lists_members(sorted_members(of), sorted_members(of)));
    sorted_members_are_unique(sorted_members(of), sorted_members(of));
}

/// Adds `added` to an ascending list, at its place, unless it is there already.
pub(crate) fn insert_ascending<T: Ordinal>(list: &mut Vec<T>, added: T)
    requires
        ascending(old(list)@),
    ensures
        ascending(final(list)@),
        forall|x: T| #[trigger] final(list)@.contains(x) <==> old(list)@.contains(x) || x == added,
{
    let ghost before = list@;
    let mut at: usize = 0;
    while at < list.len() && list[at].ranks_below(added)
        invariant
            list@ == before,
            at <= list.len(),
            forall|i: int| 0 <= i < at ==> (#[trigger] list@[i]).rank() < added.rank(),
        decreases list.len() - at,
    {
        at = at + 1;
    }
    if at < list.len() && !added.ranks_below(list[at]) {
        proof {
            T::rank_identifies(list@[at as int], added);
            assert(list@.contains(list@[at as int]));
        }
        return;
    }
    list.insert(at, added);
    proof {
        let after = list@;
        assert forall|x: T| #[trigger] after.contains(x) <==> before.contains(x) || x == added by {
            if before.contains(x) {
                let i = choose|i: int| 0 <= i < before.len() && before[i] == x;
                if i < at {
                    assert(after[i] == x);
                } else {
                    assert(after[i + 1] == x);
                }
            }
            assert(after[at as int] == added);
            if after.contains(x) && x != added {
                let i = choose|i: int| 0 <= i < after.len() && after[i] == x;
                if i < at {
                    assert(before[i] == x);
                } else {
                    assert(before[i - 1] == x);
                }
            }
        }
        assert forall|i: int, j: int| 0 <= i < j < after.len() implies (#[trigger] after[i]).rank()
            < (#[trigger] after[j]).rank() by {
            if at < before.len() {
                assert(added.rank() < before[at as int].rank());
            }
        }
    }
}

} // verus!
