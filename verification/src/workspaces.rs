//! The virtual workspaces and windows that the menu bar item follows.

use vstd::prelude::*;

use crate::actions::MenuAction;
use crate::config::Config;
use crate::content::ContentView;
use crate::manager::MenuBarManager;
use crate::menu::RowView;
use crate::ordered::insert_ascending;
use crate::widths::FocusedWidth;

verus! {

/// A row of windows: one of the virtual workspaces of a space.
#[derive(Clone, Copy, Debug, PartialEq, Eq, Structural)]
pub struct LayoutStrip {
    /// The space that the row belongs to.
    pub id: u64,
    /// Which of the space's virtual workspaces the row is.
    pub virtual_index: u32,
}

/// A window that has the focus.
pub struct FocusedWindow {
    /// Whether the window manager leaves the window alone.
    pub unmanaged: bool,
    /// How wide the window is on its display.
    pub width: FocusedWidth,
}

/// One of the rows is this virtual workspace of the space.
pub open spec fn space_has(rows: Seq<LayoutStrip>, id: u64, virtual_index: u32) -> bool {
    rows.contains(LayoutStrip { id, virtual_index })
}

/// The virtual workspaces of a space, one index for each of its rows.
pub open spec fn row_indices(rows: Seq<LayoutStrip>, id: u64) -> Seq<u32> {
    rows.filter(|row: LayoutStrip| row.id == id).map_values(|row: LayoutStrip| row.virtual_index)
}

/// The virtual workspaces of a space: each index once, in ascending order.
pub open spec fn space_indices(rows: Seq<LayoutStrip>, id: u64) -> Seq<u32> {
    crate::ordered::sorted_members(row_indices(rows, id))
}

/// A space's indices are those of its rows.
proof fn row_indices_members(rows: Seq<LayoutStrip>, id: u64)
    ensures
        forall|index: u32| #[trigger]
            row_indices(rows, id).contains(index) <==> space_has(rows, id, index),
    decreases rows.len(),
{
    reveal(Seq::filter);
    if rows.len() > 0 {
        let front = rows.drop_last();
        let last = rows.last();
        row_indices_members(front, id);
        let earlier = row_indices(front, id);
        let indices = row_indices(rows, id);
        if last.id == id {
            assert(indices =~= earlier.push(last.virtual_index));
        } else {
            assert(indices =~= earlier);
        }
        assert forall|index: u32| #[trigger] indices.contains(index) <==> space_has(
            rows,
            id,
            index,
        ) by {
            let row = LayoutStrip { id, virtual_index: index };
            assert(rows[rows.len() - 1] == last);
            if front.contains(row) {
                let i = choose|i: int| 0 <= i < front.len() && front[i] == row;
                assert(rows[i] == row);
            }
            if rows.contains(row) && row != last {
                let i = choose|i: int| 0 <= i < rows.len() && rows[i] == row;
                assert(front[i] == row);
            }
            assert(earlier.contains(index) <==> space_has(front, id, index));
            if last.id == id {
                assert(indices[earlier.len() as int] == last.virtual_index);
            }
            if earlier.contains(index) {
                let i = choose|i: int| 0 <= i < earlier.len() && earlier[i] == index;
                assert(indices[i] == index);
            }
            if indices.contains(index) {
                let i = choose|i: int| 0 <= i < indices.len() && indices[i] == index;
                if i < earlier.len() {
                    assert(earlier[i] == index);
                }
            }
        }
    }
}

/// A space lists exactly the virtual workspaces that have a row of their own,
/// each once, from the lowest to the highest.
pub proof fn space_lists_its_rows(rows: Seq<LayoutStrip>, id: u64)
    ensures
        crate::ordered::ascending(space_indices(rows, id)),
        forall|index: u32| #[trigger]
            space_indices(rows, id).contains(index) <==> space_has(rows, id, index),
{
    let indices = row_indices(rows, id);
    crate::ordered::sorted_members_exist(indices);
    row_indices_members(rows, id);
    assert forall|index: u32| #[trigger]
        space_indices(rows, id).contains(index) <==> space_has(rows, id, index) by {
        assert(space_indices(rows, id).contains(index) <==> indices.contains(index));
    }
}

/// A list that holds exactly the virtual workspaces of the space, in ascending
/// order, is the one it lists: the order that the rows come in has no part in
/// it.
pub proof fn space_indices_are_unique(list: Seq<u32>, rows: Seq<LayoutStrip>, id: u64)
    requires
        crate::ordered::ascending(list),
        forall|index: u32| #[trigger] list.contains(index) <==> space_has(rows, id, index),
    ensures
        list == space_indices(rows, id),
{
    let indices = row_indices(rows, id);
    row_indices_members(rows, id);
    assert forall|index: u32| #[trigger] list.contains(index) <==> indices.contains(index) by {}
    crate::ordered::sorted_members_are_unique(list, indices);
}

/// The virtual workspaces of a space: each index once, in ascending order.
pub fn space_virtual_indices(rows: &[LayoutStrip], id: u64) -> (indices: Vec<u32>)
    ensures
        indices@ == space_indices(rows@, id),
        crate::ordered::ascending(indices@),
        forall|index: u32| #[trigger] indices@.contains(index) <==> space_has(rows@, id, index),
        forall|i: int, j: int|
            0 <= i < j < indices@.len() ==> #[trigger] indices@[i] < #[trigger] indices@[j],
        forall|i: int|
            0 <= i < rows@.len() && (#[trigger] rows@[i]).id == id ==> indices@.contains(
                rows@[i].virtual_index,
            ),
        forall|i: int|
            0 <= i < indices@.len() ==> rows@.contains(
                LayoutStrip { id, virtual_index: #[trigger] indices@[i] },
            ),
{
    let mut indices: Vec<u32> = Vec::new();
    let mut i: usize = 0;
    while i < rows.len()
        invariant
            i <= rows.len(),
            crate::ordered::ascending(indices@),
            forall|index: u32| #[trigger]
                indices@.contains(index) <==> space_has(rows@.take(i as int), id, index),
        decreases rows.len() - i,
    {
        let row: LayoutStrip = rows[i];
        let ghost seen = rows@.take(i as int);
        let ghost now_seen = rows@.take(i + 1);
        if row.id == id {
            insert_ascending(&mut indices, row.virtual_index);
        }
        proof {
            assert forall|index: u32| #[trigger] indices@.contains(index) <==> space_has(
                now_seen,
                id,
                index,
            ) by {
                let wanted = LayoutStrip { id, virtual_index: index };
                assert(now_seen[i as int] == row);
                if seen.contains(wanted) {
                    let k = choose|k: int| 0 <= k < seen.len() && seen[k] == wanted;
                    assert(now_seen[k] == wanted);
                }
                if now_seen.contains(wanted) && wanted != row {
                    let k = choose|k: int| 0 <= k < now_seen.len() && now_seen[k] == wanted;
                    assert(seen[k] == wanted);
                }
                assert(space_has(seen, id, index) <==> seen.contains(wanted));
            }
        }
        i = i + 1;
    }
    proof {
        assert(rows@.take(i as int) =~= rows@);
        space_indices_are_unique(indices@, rows@, id);
        assert forall|i: int, j: int| 0 <= i < j < indices@.len() implies #[trigger] indices@[i]
            < #[trigger] indices@[j] by {
            assert(crate::ordered::Ordinal::rank(indices@[i]) < crate::ordered::Ordinal::rank(
                indices@[j],
            ));
        }
        assert forall|i: int| 0 <= i < rows@.len() && (#[trigger] rows@[i]).id
            == id implies indices@.contains(rows@[i].virtual_index) by {
            assert(rows@[i] == LayoutStrip { id, virtual_index: rows@[i].virtual_index });
            assert(space_has(rows@, id, rows@[i].virtual_index));
        }
        assert forall|i: int| 0 <= i < indices@.len() implies rows@.contains(
            LayoutStrip { id, virtual_index: #[trigger] indices@[i] },
        ) by {
            assert(indices@.contains(indices@[i]));
        }
    }
    indices
}

/// The percentages that the first of the focused windows matches, where that
/// window is managed.
pub open spec fn focused_matching(focused: Seq<FocusedWindow>) -> Option<Seq<i32>> {
    if focused.len() > 0 && !focused[0].unmanaged {
        Some(focused[0].width.matching@)
    } else {
        None
    }
}

/// Brings the menu bar item, where there is one, in line with the active
/// workspace, the other workspaces of its space and the focused window. Tells
/// whether the menu was built anew.
pub fn update_menu_bar(
    active_strip: &LayoutStrip,
    workspaces: &[LayoutStrip],
    focused: &[FocusedWindow],
    config: &Config,
    menu_bar: Option<&mut MenuBarManager>,
) -> (rebuilt: Option<bool>)
    requires
        menu_bar is Some ==> old(menu_bar->0).wf(),
    ensures
        rebuilt is Some <==> menu_bar is Some,
        menu_bar is Some ==> final(menu_bar->0).wf(),
        menu_bar is Some ==> final(menu_bar->0)@ == old(menu_bar->0)@.after_update(
            active_strip.virtual_index,
            space_indices(workspaces@, active_strip.id),
            *config,
            focused@.len() > 0,
            focused_matching(focused@),
        ),
        menu_bar is Some ==> rebuilt->0 == (old(menu_bar->0)@.widths
            != crate::widths::normalized_widths(config.preset_width_percentages@)),
        menu_bar is Some ==> forall|i: int|
            0 <= i < final(menu_bar->0)@.rows.len() ==> match #[trigger] final(menu_bar->0)@.rows[i] {
                RowView::Separator => true,
                RowView::Item(item) => {
                    &&& item.action == Some(MenuAction::SetWidth) || item.action == Some(
                        MenuAction::CenterWindow,
                    ) ==> item.enabled == ((focused@.len() > 0 && !focused@[0].unmanaged))
                    &&& item.action == Some(MenuAction::ToggleManaged) || item.action == Some(
                        MenuAction::CopyWindowRule,
                    ) ==> item.enabled == (focused@.len() > 0)
                    &&& item.action == Some(MenuAction::SetWidth) ==> {
                        &&& i32::MIN <= item.tag <= i32::MAX
                        &&& item.checked == ((focused@.len() > 0 && !focused@[0].unmanaged) && focused@[0].width.matching@.contains(
                            item.tag as i32,
                        ))
                    }
                    &&& item.action != Some(MenuAction::SetWidth) ==> !item.checked
                    &&& item.action == Some(MenuAction::QuitPaneru) ==> item.enabled
                    &&& item.action is None ==> !item.enabled
                },
            },
        menu_bar is Some && (old(menu_bar->0)@.running || crate::widths::normalized_widths(
            config.preset_width_percentages@,
        ).len() > 0) ==> final(menu_bar->0)@.rows == crate::menu::running_menu(
            crate::widths::normalized_widths(config.preset_width_percentages@),
            focused@.len() > 0 && !focused@[0].unmanaged,
            focused@.len() > 0,
            Seq::new(
                crate::widths::normalized_widths(config.preset_width_percentages@).len(),
                |i: int|
                    focused@.len() > 0 && !focused@[0].unmanaged && focused@[0].width.matching@.contains(
                        crate::widths::normalized_widths(config.preset_width_percentages@)[i],
                    ),
            ),
        ),
        menu_bar is Some ==> final(menu_bar->0)@.shown == old(menu_bar->0)@.shown,
        menu_bar is Some && config.workspace_menu_status ==> final(menu_bar->0)@.pending
            == if old(menu_bar->0)@.shown == Some(
            ContentView::Workspaces {
                current: Some(active_strip.virtual_index),
                all: space_indices(workspaces@, active_strip.id),
            },
        ) {
            None
        } else {
            Some(
                ContentView::Workspaces {
                    current: Some(active_strip.virtual_index),
                    all: space_indices(workspaces@, active_strip.id),
                },
            )
        },
        menu_bar is Some && !config.workspace_menu_status ==> final(menu_bar->0)@.pending
            == if old(menu_bar->0)@.shown == Some(
            ContentView::Workspaces { current: None, all: Seq::<u32>::empty() },
        ) {
            None
        } else {
            Some(ContentView::Workspaces { current: None, all: Seq::<u32>::empty() })
        },
{
    match menu_bar {
        None => None,
        Some(menu_bar) => {
            let virtual_indices = space_virtual_indices(workspaces, active_strip.id);
            let focused_width: Option<&FocusedWidth> = if focused.len() > 0
                && !focused[0].unmanaged {
                Some(&focused[0].width)
            } else {
                None
            };
            Some(
                menu_bar.update(
                    active_strip.virtual_index,
                    virtual_indices.as_slice(),
                    config,
                    focused.len() > 0,
                    focused_width,
                ),
            )
        },
    }
}

/// The active workspace is listed among those of its space, so that the
/// indicator has exactly one active position.
pub proof fn active_workspace_is_listed(rows: Seq<LayoutStrip>, active: LayoutStrip)
    requires
        rows.contains(active),
    ensures
        space_indices(rows, active.id).contains(active.virtual_index),
        crate::ordered::ascending(space_indices(rows, active.id)),
{
    space_lists_its_rows(rows, active.id);
    assert(space_has(rows, active.id, active.virtual_index));
}

/// The menu follows the first focused window alone, and only where that window
/// is managed.
pub proof fn first_managed_window_is_followed(focused: Seq<FocusedWindow>)
    ensures
        focused.len() == 0 ==> focused_matching(focused) is None,
        focused.len() > 0 && focused[0].unmanaged ==> focused_matching(focused) is None,
        focused.len() > 0 && !focused[0].unmanaged ==> focused_matching(focused) == Some(
            focused[0].width.matching@,
        ),
{
}

} // verus!
