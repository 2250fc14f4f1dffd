//! The window widths that the menu offers.

use vstd::prelude::*;

use crate::ordered::insert_ascending;

verus! {

/// The percentages that are widths at all.
pub open spec fn positives(percentages: Seq<i32>) -> Seq<i32> {
    percentages.filter(|percentage: i32| percentage > 0)
}

/// The widths that the menu offers for the configured percentages: the
/// positive ones, each once, in ascending order.
pub open spec fn normalized_widths(percentages: Seq<i32>) -> Seq<i32> {
    crate::ordered::sorted_members(positives(percentages))
}

/// The positive members of a list.
proof fn positive_members(percentages: Seq<i32>)
    ensures
        forall|p: i32| #[trigger]
            positives(percentages).contains(p) <==> p > 0 && percentages.contains(p),
    decreases percentages.len(),
{
    reveal(Seq::filter);
    if percentages.len() > 0 {
        let front = percentages.drop_last();
        let last = percentages.last();
        positive_members(front);
        let kept = positives(front);
        assert(percentages =~= front.push(last));
        assert forall|p: i32| #[trigger] positives(percentages).contains(p) <==> p > 0
            && percentages.contains(p) by {
            if percentages.contains(p) && p != last {
                let i = choose|i: int| 0 <= i < percentages.len() && percentages[i] == p;
                assert(front[i] == p);
                assert(front.contains(p));
            }
            if front.contains(p) {
                let i = choose|i: int| 0 <= i < front.len() && front[i] == p;
                assert(percentages[i] == p);
            }
            assert(percentages[percentages.len() - 1] == last);
            if last > 0 {
                assert(positives(percentages) == kept.push(last));
                if kept.contains(p) {
                    let i = choose|i: int| 0 <= i < kept.len() && kept[i] == p;
                    assert(kept.push(last)[i] == p);
                }
                assert(kept.push(last)[kept.len() as int] == last);
                if kept.push(last).contains(p) && p != last {
                    let i = choose|i: int|
                        0 <= i < kept.push(last).len() && kept.push(last)[i] == p;
                    assert(kept[i] == p);
                }
            } else {
                assert(positives(percentages) == kept);
            }
        }
    }
}

/// The offered widths are positive and strictly ascending, and hold every
/// positive percentage that is configured and no other.
pub proof fn normalized_widths_are_valid(percentages: Seq<i32>)
    ensures
        crate::ordered::ascending(normalized_widths(percentages)),
        forall|p: i32| #[trigger]
            normalized_widths(percentages).contains(p) <==> p > 0 && percentages.contains(p),
        forall|i: int|
            0 <= i < normalized_widths(percentages).len() ==> #[trigger] normalized_widths(
                percentages,
            )[i] > 0,
{
    let positive = positives(percentages);
    crate::ordered::sorted_members_exist(positive);
    positive_members(percentages);
    let widths = normalized_widths(percentages);
    assert forall|p: i32| #[trigger] widths.contains(p) <==> p > 0 && percentages.contains(p) by {
        assert(widths.contains(p) <==> positive.contains(p));
    }
    assert forall|i: int| 0 <= i < widths.len() implies #[trigger] widths[i] > 0 by {
        assert(widths.contains(widths[i]));
    }
}

/// A list that holds the positive percentages in ascending order is the list
/// of offered widths: what they are does not depend on the order or the number
/// of times they were configured in.
pub proof fn normalized_widths_are_unique(widths: Seq<i32>, percentages: Seq<i32>)
    requires
        crate::ordered::ascending(widths),
        forall|p: i32| #[trigger] widths.contains(p) <==> p > 0 && percentages.contains(p),
    ensures
        widths == normalized_widths(percentages),
{
    let positive = positives(percentages);
    positive_members(percentages);
    assert forall|p: i32| #[trigger] widths.contains(p) <==> positive.contains(p) by {}
    crate::ordered::sorted_members_are_unique(widths, positive);
}

/// Normalizing widths a second time changes nothing.
pub proof fn normalizing_is_idempotent(percentages: Seq<i32>)
    ensures
        normalized_widths(normalized_widths(percentages)) == normalized_widths(percentages),
{
    let widths = normalized_widths(percentages);
    normalized_widths_are_valid(percentages);
    assert forall|p: i32| #[trigger] widths.contains(p) <==> p > 0 && widths.contains(p) by {}
    normalized_widths_are_unique(widths, widths);
}

/// The widths that the menu offers for the configured percentages: the
/// positive ones, each once, in ascending order.
pub fn normalized_width_percentages(percentages: &[i32]) -> (widths: Vec<i32>)
    ensures
        widths@ == normalized_widths(percentages@),
        crate::ordered::ascending(widths@),
        forall|p: i32| #[trigger] widths@.contains(p) <==> p > 0 && percentages@.contains(p),
        forall|i: int, j: int|
            0 <= i < j < widths@.len() ==> #[trigger] widths@[i] < #[trigger] widths@[j],
        forall|i: int|
            0 <= i < widths@.len() ==> #[trigger] widths@[i] > 0 && percentages@.contains(widths@[i]),
        forall|i: int|
            0 <= i < percentages@.len() && #[trigger] percentages@[i] > 0 ==> widths@.contains(
                percentages@[i],
            ),
{
    let mut widths: Vec<i32> = Vec::new();
    let mut i: usize = 0;
    while i < percentages.len()
        invariant
            i <= percentages.len(),
            crate::ordered::ascending(widths@),
            forall|p: i32| #[trigger]
                widths@.contains(p) <==> p > 0 && percentages@.take(i as int).contains(p),
        decreases percentages.len() - i,
    {
        let percentage: i32 = percentages[i];
        let ghost seen = percentages@.take(i as int);
        let ghost now_seen = percentages@.take(i + 1);
        if percentage > 0 {
            insert_ascending(&mut widths, percentage);
        }
        proof {
            assert forall|p: i32| #[trigger] now_seen.contains(p) <==> seen.contains(p) || p
                == percentage by {
                assert(now_seen[i as int] == percentage);
                if seen.contains(p) {
                    let k = choose|k: int| 0 <= k < seen.len() && seen[k] == p;
                    assert(now_seen[k] == p);
                }
                if now_seen.contains(p) && p != percentage {
                    let k = choose|k: int| 0 <= k < now_seen.len() && now_seen[k] == p;
                    assert(seen[k] == p);
                }
            }
        }
        i = i + 1;
    }
    proof {
        assert(percentages@.take(i as int) =~= percentages@);
        normalized_widths_are_unique(widths@, percentages@);
        assert forall|i: int, j: int| 0 <= i < j < widths@.len() implies #[trigger] widths@[i]
            < #[trigger] widths@[j] by {
            assert(crate::ordered::Ordinal::rank(widths@[i]) < crate::ordered::Ordinal::rank(
                widths@[j],
            ));
        }
        assert forall|i: int| 0 <= i < widths@.len() implies #[trigger] widths@[i] > 0
            && percentages@.contains(widths@[i]) by {
            assert(widths@.contains(widths@[i]));
        }
        assert forall|i: int| 0 <= i < percentages@.len() && #[trigger] percentages@[i] > 0 implies widths@.contains(
        percentages@[i]) by {
            assert(percentages@.contains(percentages@[i]));
        }
    }
    widths
}

/// The width of the focused managed window, by what the menu has to know of
/// it.
pub struct FocusedWidth {
    /// The offered percentages that the width lies closer to than one point.
    pub matching: Vec<i32>,
}

/// Which groups of menu entries can be chosen.
#[derive(Clone, Copy, Debug, PartialEq, Eq, Structural)]
pub struct WindowMenuEnablement {
    /// The entries that act on a managed window.
    pub managed_actions: bool,
    /// The entries that act on any focused window.
    pub toggle_managed: bool,
}

/// Which groups of menu entries can be chosen: those for managed windows while
/// one is focused, the others while any window is.
pub fn window_menu_enablement(
    has_focused_window: bool,
    focused_width: Option<&FocusedWidth>,
) -> (enablement: WindowMenuEnablement)
    ensures
        enablement.managed_actions == (focused_width is Some),
        enablement.toggle_managed == has_focused_window,
{
    WindowMenuEnablement {
        managed_actions: focused_width.is_some(),
        toggle_managed: has_focused_window,
    }
}

} // verus!
