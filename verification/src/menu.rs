//! The rows of the menu.

use vstd::prelude::*;

use crate::actions::MenuAction;
use crate::numerals::signed_decimal_numeral;

verus! {

/// An entry of the menu.
pub struct MenuItem {
    pub title: String,
    /// What choosing the entry does; an entry without an action only informs.
    pub action: Option<MenuAction>,
    /// The number that the action is handed.
    pub tag: isize,
    pub enabled: bool,
    pub checked: bool,
}

/// A row of the menu.
pub enum MenuRow {
    Separator,
    Item(MenuItem),
}

/// An entry of the menu, as a value.
#[verifier::ext_equal]
pub struct ItemView {
    pub title: Seq<char>,
    pub action: Option<MenuAction>,
    pub tag: int,
    pub enabled: bool,
    pub checked: bool,
}

/// A row of the menu, as a value.
#[verifier::ext_equal]
pub enum RowView {
    Separator,
    Item(ItemView),
}

impl View for MenuItem {
    type V = ItemView;

    open spec fn view(&self) -> ItemView {
        ItemView {
            title: self.title@,
            action: self.action,
            tag: self.tag as int,
            enabled: self.enabled,
            checked: self.checked,
        }
    }
}

impl View for MenuRow {
    type V = RowView;

    open spec fn view(&self) -> RowView {
        match self {
            MenuRow::Separator => RowView::Separator,
            MenuRow::Item(item) => RowView::Item(item@),
        }
    }
}

/// The rows of a menu, as values.
pub open spec fn rows_view(rows: Seq<MenuRow>) -> Seq<RowView> {
    rows.map_values(|row: MenuRow| row@)
}

/// The row with its entry enabled or not.
pub open spec fn with_enabled(row: RowView, enabled: bool) -> RowView {
    match row {
        RowView::Separator => RowView::Separator,
        RowView::Item(item) => RowView::Item(ItemView { enabled, ..item }),
    }
}

/// The row with its entry checked or not.
pub open spec fn with_checked(row: RowView, checked: bool) -> RowView {
    match row {
        RowView::Separator => RowView::Separator,
        RowView::Item(item) => RowView::Item(ItemView { checked, ..item }),
    }
}

/// A row that only informs.
pub open spec fn notice(title: Seq<char>) -> RowView {
    RowView::Item(ItemView { title, action: None, tag: 0, enabled: false, checked: false })
}

/// A row that can be chosen while it is enabled.
pub open spec fn choice(title: Seq<char>, action: MenuAction, enabled: bool) -> RowView {
    RowView::Item(ItemView { title, action: Some(action), tag: 0, enabled, checked: false })
}

/// The row that offers a width.
pub open spec fn width_choice(percentage: i32, enabled: bool, checked: bool) -> RowView {
    RowView::Item(
        ItemView {
            title: crate::numerals::signed_decimal(percentage as int).push('%'),
            action: Some(MenuAction::SetWidth),
            tag: percentage as int,
            enabled,
            checked,
        },
    )
}

/// The rows above the widths in the menu of a running window manager.
pub open spec fn running_head() -> Seq<RowView> {
    seq![notice("Paneru — Running"@), RowView::Separator, notice("Window width"@)]
}

/// The rows that offer the widths.
pub open spec fn width_rows(widths: Seq<i32>, managed: bool, checked: Seq<bool>) -> Seq<RowView> {
    Seq::new(widths.len(), |i: int| width_choice(widths[i], managed, checked[i]))
}

/// The rows below the widths.
pub open spec fn running_tail(managed: bool, toggle: bool) -> Seq<RowView> {
    seq![
        RowView::Separator,
        choice("Center Window"@, MenuAction::CenterWindow, managed),
        choice("Toggle Managed"@, MenuAction::ToggleManaged, toggle),
        RowView::Separator,
        choice("Copy Window Rule"@, MenuAction::CopyWindowRule, toggle),
        RowView::Separator,
        choice("Quit Paneru"@, MenuAction::QuitPaneru, true),
    ]
}

/// The menu of a running window manager that offers `widths`. The entries for
/// managed windows are enabled by `managed`, those for any focused window by
/// `toggle`; `checked` tells which widths are checked.
pub open spec fn running_menu(
    widths: Seq<i32>,
    managed: bool,
    toggle: bool,
    checked: Seq<bool>,
) -> Seq<RowView> {
    running_head() + width_rows(widths, managed, checked) + running_tail(managed, toggle)
}

/// The menu that is up until the accessibility privilege is granted.
pub open spec fn accessibility_menu() -> Seq<RowView> {
    seq![
        notice("Paneru — Accessibility Required"@),
        notice("Grant access; Paneru will start automatically"@),
        RowView::Separator,
        choice(
            "Show Setup Instructions…"@,
            MenuAction::ShowAccessibilityInstructions,
            true,
        ),
        choice("Open Accessibility Settings…"@, MenuAction::OpenAccessibilitySettings, true),
        RowView::Separator,
        choice("Quit Paneru"@, MenuAction::QuitPaneru, true),
    ]
}

/// The title of the row that offers a width.
pub(crate) fn width_title(percentage: i32) -> (title: String)
    ensures
        title@ == crate::numerals::signed_decimal(percentage as int).push('%'),
{
    let mut title = signed_decimal_numeral(percentage);
    title.push('%');
    title
}

/// Adds an enabled, unchecked entry at the bottom, and tells its row.
pub(crate) fn add_item(rows: &mut Vec<MenuRow>, title: String, action: Option<MenuAction>) -> (row:
    usize)
    ensures
        row == old(rows).len(),
        final(rows).len() == old(rows).len() + 1,
        rows_view(final(rows)@) == rows_view(old(rows)@).push(
            RowView::Item(ItemView { title: title@, action, tag: 0, enabled: true, checked: false }),
        ),
{
    let ghost before = rows_view(rows@);
    let row: usize = rows.len();
    rows.push(MenuRow::Item(MenuItem { title, action, tag: 0, enabled: true, checked: false }));
    assert(rows_view(rows@) =~= before.push(rows@[row as int]@));
    row
}

/// Adds a separator at the bottom.
pub(crate) fn add_separator(rows: &mut Vec<MenuRow>)
    ensures
        final(rows).len() == old(rows).len() + 1,
        rows_view(final(rows)@) == rows_view(old(rows)@).push(RowView::Separator),
{
    let ghost before = rows_view(rows@);
    rows.push(MenuRow::Separator);
    assert(rows_view(rows@) =~= before.push(RowView::Separator));
}

/// Enables or disables the entry in a row.
pub(crate) fn set_enabled(rows: &mut Vec<MenuRow>, row: usize, enabled: bool)
    requires
        row < old(rows).len(),
    ensures
        final(rows).len() == old(rows).len(),
        rows_view(final(rows)@) == rows_view(old(rows)@).update(
            row as int,
            with_enabled(rows_view(old(rows)@)[row as int], enabled),
        ),
{
    let ghost before = rows@;
    match &mut rows[row] {
        MenuRow::Separator => {},
        MenuRow::Item(item) => {
            item.enabled = enabled;
        },
    }
    assert(rows_view(rows@) =~= rows_view(before).update(
        row as int,
        with_enabled(rows_view(before)[row as int], enabled),
    ));
}

/// Checks or unchecks the entry in a row.
pub(crate) fn set_checked(rows: &mut Vec<MenuRow>, row: usize, checked: bool)
    requires
        row < old(rows).len(),
    ensures
        final(rows).len() == old(rows).len(),
        rows_view(final(rows)@) == rows_view(old(rows)@).update(
            row as int,
            with_checked(rows_view(old(rows)@)[row as int], checked),
        ),
{
    let ghost before = rows@;
    match &mut rows[row] {
        MenuRow::Separator => {},
        MenuRow::Item(item) => {
            item.checked = checked;
        },
    }
    assert(rows_view(rows@) =~= rows_view(before).update(
        row as int,
        with_checked(rows_view(before)[row as int], checked),
    ));
}

/// Gives the entry in a row its tag.
pub(crate) fn set_tag(rows: &mut Vec<MenuRow>, row: usize, tag: isize)
    requires
        row < old(rows).len(),
    ensures
        final(rows).len() == old(rows).len(),
        rows_view(final(rows)@) == rows_view(old(rows)@).update(
            row as int,
            match rows_view(old(rows)@)[row as int] {
                RowView::Separator => RowView::Separator,
                RowView::Item(item) => RowView::Item(ItemView { tag: tag as int, ..item }),
            },
        ),
{
    let ghost before = rows@;
    match &mut rows[row] {
        MenuRow::Separator => {},
        MenuRow::Item(item) => {
            item.tag = tag;
        },
    }
    assert(rows_view(rows@) =~= rows_view(before).update(row as int, rows@[row as int]@));
}

/// Where each row of a running window manager's menu stands.
pub proof fn running_menu_rows(widths: Seq<i32>, managed: bool, toggle: bool, checked: Seq<bool>)
    ensures
        ({
            let rows = running_menu(widths, managed, toggle, checked);
            let n = widths.len() as int;
            &&& rows.len() == n + 10
            &&& forall|i: int| 0 <= i < 3 ==> #[trigger] rows[i] == running_head()[i]
            &&& forall|i: int|
                3 <= i < n + 3 ==> #[trigger] rows[i] == width_choice(
                    widths[i - 3],
                    managed,
                    checked[i - 3],
                )
            &&& forall|i: int|
                n + 3 <= i < n + 10 ==> #[trigger] rows[i] == running_tail(managed, toggle)[i - n
                    - 3]
        }),
{
}

/// What an entry of a running window manager's menu is enabled by: the widths
/// and centering by a managed window in focus, managing and copying the rule by
/// any window in focus, quitting always. A row without an action is never
/// enabled.
pub open spec fn enabled_by(action: Option<MenuAction>, managed: bool, toggle: bool) -> bool {
    match action {
        Some(MenuAction::SetWidth) => managed,
        Some(MenuAction::CenterWindow) => managed,
        Some(MenuAction::ToggleManaged) => toggle,
        Some(MenuAction::CopyWindowRule) => toggle,
        Some(_) => true,
        None => false,
    }
}

/// Every entry of a running window manager's menu is enabled by what its
/// action needs, and only widths are checked.
pub proof fn entries_are_enabled_by_need(
    widths: Seq<i32>,
    managed: bool,
    toggle: bool,
    checked: Seq<bool>,
)
    ensures
        forall|i: int|
            0 <= i < widths.len() + 10 ==> match #[trigger] running_menu(
                widths,
                managed,
                toggle,
                checked,
            )[i] {
                RowView::Separator => true,
                RowView::Item(item) => {
                    &&& item.enabled == enabled_by(item.action, managed, toggle)
                    &&& item.checked ==> item.action == Some(MenuAction::SetWidth)
                },
            },
{
    running_menu_rows(widths, managed, toggle, checked);
    let rows = running_menu(widths, managed, toggle, checked);
    let n = widths.len() as int;
    assert forall|i: int| 0 <= i < n + 10 implies match #[trigger] rows[i] {
        RowView::Separator => true,
        RowView::Item(item) => {
            &&& item.enabled == enabled_by(item.action, managed, toggle)
            &&& item.checked ==> item.action == Some(MenuAction::SetWidth)
        },
    } by {
        if i < 3 {
            assert(rows[i] == running_head()[i]);
        } else if i < n + 3 {
            assert(rows[i] == width_choice(widths[i - 3], managed, checked[i - 3]));
        } else {
            assert(rows[i] == running_tail(managed, toggle)[i - n - 3]);
        }
    }
}

/// With an unmanaged window in focus, the entries for any focused window can be
/// chosen, and those for managed windows cannot.
pub proof fn unmanaged_focus_leaves_toggling(widths: Seq<i32>, checked: Seq<bool>)
    ensures
        forall|i: int|
            0 <= i < widths.len() + 10 ==> match #[trigger] running_menu(
                widths,
                false,
                true,
                checked,
            )[i] {
                RowView::Separator => true,
                RowView::Item(item) => item.enabled <==> item.action == Some(
                    MenuAction::ToggleManaged,
                ) || item.action == Some(MenuAction::CopyWindowRule) || item.action == Some(
                    MenuAction::QuitPaneru,
                ),
            },
{
    running_menu_rows(widths, false, true, checked);
    let rows = running_menu(widths, false, true, checked);
    let n = widths.len() as int;
    assert forall|i: int| 0 <= i < n + 10 implies match #[trigger] rows[i] {
        RowView::Separator => true,
        RowView::Item(item) => item.enabled <==> item.action == Some(MenuAction::ToggleManaged)
            || item.action == Some(MenuAction::CopyWindowRule) || item.action == Some(
            MenuAction::QuitPaneru,
        ),
    } by {
        if i < 3 {
            assert(rows[i] == running_head()[i]);
        } else if i < n + 3 {
            assert(rows[i] == width_choice(widths[i - 3], false, checked[i - 3]));
        } else {
            assert(rows[i] == running_tail(false, true)[i - n - 3]);
        }
    }
}

/// Choosing an offered width asks for that width, and each offered width is
/// titled with its percentage.
pub proof fn width_entries_ask_for_their_width(
    widths: Seq<i32>,
    managed: bool,
    toggle: bool,
    checked: Seq<bool>,
    i: int,
)
    requires
        0 <= i < widths.len(),
    ensures
        running_menu(widths, managed, toggle, checked)[i + 3] matches RowView::Item(item) && {
            &&& item.title == crate::numerals::signed_decimal(widths[i] as int).push('%')
            &&& item.action is Some
            &&& crate::actions::action_command(item.action->0, item.tag) == Some(
                crate::actions::Command::Window(crate::actions::Operation::SetWidth(widths[i])),
            )
        },
{
    running_menu_rows(widths, managed, toggle, checked);
    assert(running_menu(widths, managed, toggle, checked)[i + 3] == width_choice(
        widths[i],
        managed,
        checked[i],
    ));
}

/// Either menu ends in an enabled entry that quits.
pub proof fn quitting_is_always_offered(
    widths: Seq<i32>,
    managed: bool,
    toggle: bool,
    checked: Seq<bool>,
)
    ensures
        running_menu(widths, managed, toggle, checked).last() == choice(
            "Quit Paneru"@,
            MenuAction::QuitPaneru,
            true,
        ),
        accessibility_menu().last() == choice("Quit Paneru"@, MenuAction::QuitPaneru, true),
{
    running_menu_rows(widths, managed, toggle, checked);
}

/// The row without what an update changes of it.
pub open spec fn fixed_part(row: RowView) -> RowView {
    with_checked(with_enabled(row, false), false)
}

/// Updates of a running window manager's menu leave its entries in place, with
/// their titles, actions and tags, as long as the offered widths stay.
pub proof fn entries_stay_in_place(
    widths: Seq<i32>,
    managed: bool,
    toggle: bool,
    checked: Seq<bool>,
    managed_later: bool,
    toggle_later: bool,
    checked_later: Seq<bool>,
)
    ensures
        running_menu(widths, managed, toggle, checked).map_values(|row: RowView| fixed_part(row))
            == running_menu(widths, managed_later, toggle_later, checked_later).map_values(
            |row: RowView| fixed_part(row),
        ),
{
    running_menu_rows(widths, managed, toggle, checked);
    running_menu_rows(widths, managed_later, toggle_later, checked_later);
    let rows = running_menu(widths, managed, toggle, checked);
    let later = running_menu(widths, managed_later, toggle_later, checked_later);
    let n = widths.len() as int;
    assert forall|i: int| 0 <= i < rows.len() implies fixed_part(#[trigger] rows[i]) == fixed_part(
        later[i],
    ) by {
        if i < 3 {
            assert(later[i] == running_head()[i]);
        } else if i < n + 3 {
            assert(later[i] == width_choice(widths[i - 3], managed_later, checked_later[i - 3]));
        } else {
            assert(later[i] == running_tail(managed_later, toggle_later)[i - n - 3]);
        }
    }
    assert(rows.map_values(|row: RowView| fixed_part(row)) =~= later.map_values(
        |row: RowView| fixed_part(row),
    ));
}

/// The row cannot be chosen, or choosing it sends a command or leaves the
/// program something to do.
pub open spec fn acts(row: RowView) -> bool {
    match row {
        RowView::Separator => true,
        RowView::Item(item) => {
            ||| item.action is None
            ||| crate::actions::action_command(item.action->0, item.tag) is Some
            ||| crate::actions::action_follow_up(item.action->0)
                != crate::actions::FollowUp::Deliver
        },
    }
}

/// No entry of either menu that can be chosen is without effect.
pub proof fn every_choice_acts(
    widths: Seq<i32>,
    managed: bool,
    toggle: bool,
    checked: Seq<bool>,
)
    ensures
        forall|i: int|
            0 <= i < widths.len() + 10 ==> acts(
                #[trigger] running_menu(widths, managed, toggle, checked)[i],
            ),
        forall|i: int|
            0 <= i < accessibility_menu().len() ==> acts(#[trigger] accessibility_menu()[i]),
{
    running_menu_rows(widths, managed, toggle, checked);
    let rows = running_menu(widths, managed, toggle, checked);
    let n = widths.len() as int;
    assert forall|i: int| 0 <= i < n + 10 implies acts(#[trigger] rows[i]) by {
        if i < 3 {
            assert(rows[i] == running_head()[i]);
        } else if i < n + 3 {
            assert(rows[i] == width_choice(widths[i - 3], managed, checked[i - 3]));
        } else {
            assert(rows[i] == running_tail(managed, toggle)[i - n - 3]);
        }
    }
}

/// In the menu that asks for the accessibility privilege, exactly one row leads
/// to the instructions, the one titled so, exactly one to the settings, the one
/// titled so, and only the last row quits. No other row has an effect, those
/// that have one can be chosen, and no row is checked.
pub proof fn accessibility_rows_lead_where_they_say(i: int)
    requires
        0 <= i < 7,
    ensures
        accessibility_menu().len() == 7,
        match accessibility_menu()[i] {
            RowView::Separator => i == 2 || i == 5,
            RowView::Item(item) => {
                &&& (item.action is Some && crate::actions::action_follow_up(item.action->0)
                    == crate::actions::FollowUp::ShowAccessibilityInstructions) <==> i == 3
                &&& item.action == Some(MenuAction::ShowAccessibilityInstructions) <==> i == 3
                &&& i == 3 ==> item.title == "Show Setup Instructions…"@
                &&& (item.action is Some && crate::actions::action_follow_up(item.action->0)
                    == crate::actions::FollowUp::OpenAccessibilitySettings) <==> i == 4
                &&& item.action == Some(MenuAction::OpenAccessibilitySettings) <==> i == 4
                &&& i == 4 ==> item.title == "Open Accessibility Settings…"@
                &&& (item.action is Some && crate::actions::action_command(
                    item.action->0,
                    item.tag,
                ) == Some(crate::actions::Command::Quit)) <==> i == accessibility_menu().len() - 1
                &&& item.action == Some(MenuAction::QuitPaneru) <==> i == 6
                &&& i == 6 ==> item.title == "Quit Paneru"@
                &&& item.action is None <==> i == 0 || i == 1
                &&& i == 0 ==> item.title == "Paneru — Accessibility Required"@
                &&& i == 1 ==> item.title == "Grant access; Paneru will start automatically"@
                &&& item.enabled <==> item.action is Some
                &&& !item.checked
                &&& i != 2 && i != 5
            },
        },
{
}

/// In a running window manager's menu, the rows from the fourth on offer the
/// widths in their order, each titled and tagged with its percentage; each of
/// the other actions stands in exactly one row, the one titled for it; and every
/// row stands where it does whatever window is focused.
pub proof fn running_rows_lead_where_they_say(
    widths: Seq<i32>,
    managed: bool,
    toggle: bool,
    checked: Seq<bool>,
    i: int,
)
    requires
        0 <= i < widths.len() + 10,
    ensures
        running_menu(widths, managed, toggle, checked).len() == widths.len() + 10,
        ({
            let n = widths.len() as int;
            match running_menu(widths, managed, toggle, checked)[i] {
                RowView::Separator => i == 1 || i == n + 3 || i == n + 6 || i == n + 8,
                RowView::Item(item) => {
                    &&& item.action == Some(MenuAction::SetWidth) <==> 3 <= i < n + 3
                    &&& 3 <= i < n + 3 ==> {
                        &&& item.tag == widths[i - 3]
                        &&& item.title.len() > 0
                        &&& item.title.last() == '%'
                        &&& item.title.drop_last() == crate::numerals::signed_decimal(
                            widths[i - 3] as int,
                        )
                        &&& widths[i - 3] >= 0 ==> crate::numerals::decimal_value(
                            item.title.drop_last(),
                        ) == widths[i - 3]
                        &&& item.enabled == managed
                        &&& item.checked == checked[i - 3]
                    }
                    &&& item.action == Some(MenuAction::CenterWindow) <==> i == n + 4
                    &&& i == n + 4 ==> item.title == "Center Window"@ && item.enabled == managed
                    &&& item.action == Some(MenuAction::ToggleManaged) <==> i == n + 5
                    &&& i == n + 5 ==> item.title == "Toggle Managed"@ && item.enabled == toggle
                    &&& item.action == Some(MenuAction::CopyWindowRule) <==> i == n + 7
                    &&& i == n + 7 ==> item.title == "Copy Window Rule"@ && item.enabled == toggle
                    &&& item.action == Some(MenuAction::QuitPaneru) <==> i == n + 9
                    &&& i == n + 9 ==> item.title == "Quit Paneru"@ && item.enabled
                    &&& item.action is None <==> i == 0 || i == 2
                    &&& i == 0 ==> item.title == "Paneru — Running"@ && !item.enabled
                    &&& i == 2 ==> item.title == "Window width"@ && !item.enabled
                    &&& !(3 <= i < n + 3) ==> !item.checked && item.tag == 0
                    &&& i != 1 && i != n + 3 && i != n + 6 && i != n + 8
                },
            }
        }),
{
    running_menu_rows(widths, managed, toggle, checked);
    let rows = running_menu(widths, managed, toggle, checked);
    let n = widths.len() as int;
    if i < 3 {
        assert(rows[i] == running_head()[i]);
    } else if i < n + 3 {
        let percentage = widths[i - 3];
        assert(rows[i] == width_choice(percentage, managed, checked[i - 3]));
        let digits = crate::numerals::signed_decimal(percentage as int);
        assert(digits.push('%').drop_last() =~= digits);
        crate::numerals::signed_decimal_reads_back(percentage as int);
    } else {
        assert(rows[i] == running_tail(managed, toggle)[i - n - 3]);
    }
}

} // verus!
