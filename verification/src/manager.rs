//! The state behind the menu bar item.

use vstd::prelude::*;

use crate::actions::MenuAction;
use crate::config::Config;
use crate::content::{ContentView, MenuBarContent};
use crate::menu::{
    add_item, add_separator, set_checked, set_enabled, set_tag, width_title, MenuRow, RowView,
};
use crate::widths::{
    normalized_width_percentages, window_menu_enablement, FocusedWidth, WindowMenuEnablement,
};

verus! {

/// What the menu bar item is, as a value.
#[verifier::ext_equal]
pub struct ManagerView {
    /// The rows of the menu.
    pub rows: Seq<RowView>,
    /// Whether the menu is that of a running window manager.
    pub running: bool,
    /// The widths that the menu was built for.
    pub widths: Seq<i32>,
    /// What the status item shows.
    pub shown: Option<ContentView>,
    /// What the status item is to show next.
    pub pending: Option<ContentView>,
}

/// The percentages that the focused managed window matches, if there is one.
pub open spec fn matching_view(focused_width: Option<&FocusedWidth>) -> Option<Seq<i32>> {
    match focused_width {
        Some(width) => Some(width.matching@),
        None => None,
    }
}

/// Whether the focused managed window has this width.
pub open spec fn width_checked(matching: Option<Seq<i32>>, percentage: i32) -> bool {
    matching is Some && matching->0.contains(percentage)
}

/// Which of the widths are checked.
pub open spec fn checks(widths: Seq<i32>, matching: Option<Seq<i32>>) -> Seq<bool> {
    Seq::new(widths.len(), |i: int| width_checked(matching, widths[i]))
}

impl ManagerView {
    /// What is to be shown next once `content` is asked for: nothing where it
    /// is up already.
    pub open spec fn after_request(self, content: ContentView) -> ManagerView {
        ManagerView {
            pending: if self.shown == Some(content) {
                None
            } else {
                Some(content)
            },
            ..self
        }
    }

    /// What becomes of the item once the pending content was installed, or
    /// could not be.
    pub open spec fn after_install(self, installed: bool) -> ManagerView {
        ManagerView {
            shown: if installed && self.pending is Some {
                self.pending
            } else {
                self.shown
            },
            pending: None,
            ..self
        }
    }

    /// What becomes of the menu: it is built anew where other widths are
    /// configured than it was built for, and a running window manager's menu
    /// follows the focused window.
    pub open spec fn after_menu_update(
        self,
        widths: Seq<i32>,
        has_focused_window: bool,
        matching: Option<Seq<i32>>,
    ) -> ManagerView {
        let running = self.running || self.widths != widths;
        ManagerView {
            rows: if running {
                crate::menu::running_menu(
                    widths,
                    matching is Some,
                    has_focused_window,
                    checks(widths, matching),
                )
            } else {
                self.rows
            },
            running,
            widths,
            ..self
        }
    }

    /// What becomes of the item in an update.
    pub open spec fn after_update(
        self,
        virtual_index: u32,
        virtual_indices: Seq<u32>,
        config: Config,
        has_focused_window: bool,
        matching: Option<Seq<i32>>,
    ) -> ManagerView {
        self.after_menu_update(
            crate::widths::normalized_widths(config.preset_width_percentages@),
            has_focused_window,
            matching,
        ).after_request(
            crate::content::workspaces_content(config, virtual_index, virtual_indices),
        )
    }
}

/// The item before anything was put into it.
pub open spec fn blank() -> ManagerView {
    ManagerView {
        rows: Seq::empty(),
        running: false,
        widths: Seq::empty(),
        shown: None,
        pending: None,
    }
}

/// The menu bar item: its menu, and the content that its status item shows.
///
/// The program draws. After each step it brings the system's menu in line with
/// [`rows`](MenuBarManager::rows), puts up the
/// [`pending`](MenuBarManager::pending) content if there is any, and tells by
/// [`finish_install`](MenuBarManager::finish_install) how that went.
pub struct MenuBarManager {
    menu: Vec<MenuRow>,
    width_items: Vec<(i32, usize)>,
    managed_window_items: Vec<usize>,
    manage_item: Option<usize>,
    copy_rule_item: Option<usize>,
    configured_widths: Vec<i32>,
    current_content: Option<MenuBarContent>,
    pending_content: Option<MenuBarContent>,
}

impl View for MenuBarManager {
    type V = ManagerView;

    closed spec fn view(&self) -> ManagerView {
        ManagerView {
            rows: crate::menu::rows_view(self.menu@),
            running: self.manage_item is Some,
            widths: self.configured_widths@,
            shown: crate::content::optional_view(self.current_content),
            pending: crate::content::optional_view(self.pending_content),
        }
    }
}

spec fn row_enabled(row: RowView) -> bool {
    row is Item && row->0.enabled
}

spec fn row_checked(row: RowView) -> bool {
    row is Item && row->0.checked
}

/// The row is enabled and checked as the focused window asks for.
spec fn row_follows_focus(
    row: RowView,
    has_focused_window: bool,
    matching: Option<Seq<i32>>,
) -> bool {
    match row {
        RowView::Separator => true,
        RowView::Item(item) => {
            &&& item.action == Some(MenuAction::SetWidth) || item.action == Some(
                MenuAction::CenterWindow,
            ) ==> item.enabled == (matching is Some)
            &&& item.action == Some(MenuAction::ToggleManaged) || item.action == Some(
                MenuAction::CopyWindowRule,
            ) ==> item.enabled == has_focused_window
            &&& item.action == Some(MenuAction::SetWidth) ==> {
                &&& i32::MIN <= item.tag <= i32::MAX
                &&& item.checked == (matching is Some && matching->0.contains(item.tag as i32))
            }
            &&& item.action != Some(MenuAction::SetWidth) ==> !item.checked
            &&& item.action == Some(MenuAction::QuitPaneru) ==> item.enabled
            &&& item.action is None ==> !item.enabled
        },
    }
}

/// The rows are a running window manager's menu for these widths.
spec fn is_running_menu(rows: Seq<RowView>, widths: Seq<i32>) -> bool {
    let n = widths.len() as int;
    rows == crate::menu::running_menu(
        widths,
        row_enabled(rows[n + 4]),
        row_enabled(rows[n + 5]),
        Seq::new(widths.len(), |i: int| row_checked(rows[i + 3])),
    )
}

fn contains_percentage(percentages: &Vec<i32>, wanted: i32) -> (found: bool)
    ensures
        found == percentages@.contains(wanted),
{
    let mut i: usize = 0;
    while i < percentages.len()
        invariant
            i <= percentages.len(),
            forall|k: int| 0 <= k < i ==> percentages@[k] != wanted,
        decreases percentages.len() - i,
    {
        if percentages[i] == wanted {
            return true;
        }
        i = i + 1;
    }
    false
}

fn same_widths(a: &Vec<i32>, b: &Vec<i32>) -> (same: bool)
    ensures
        same == (a@ == b@),
{
    let same = *a == *b;
    assert(same ==> a@ =~= b@);
    same
}

impl MenuBarManager {
    /// The remembered rows are where the menu has them.
    pub closed spec fn wf(&self) -> bool {
        let rows = crate::menu::rows_view(self.menu@);
        let widths = self.configured_widths@;
        let n = widths.len() as int;
        if self.manage_item is Some {
            &&& is_running_menu(rows, widths)
            &&& self.manage_item->0 == n + 5
            &&& self.copy_rule_item is Some
            &&& self.copy_rule_item->0 == n + 7
            &&& self.width_items.len() == n
            &&& forall|i: int|
                0 <= i < n ==> (#[trigger] self.width_items@[i]).0 == widths[i]
                    && self.width_items@[i].1 == i + 3
            &&& self.managed_window_items.len() == n + 1
            &&& forall|i: int| 0 <= i < n ==> #[trigger] self.managed_window_items@[i] == i + 3
            &&& self.managed_window_items@[n] == n + 4
        } else {
            &&& self.copy_rule_item is None
            &&& self.width_items.len() == 0
            &&& self.managed_window_items.len() == 0
            &&& n == 0
            &&& rows.len() == 0 || rows == crate::menu::accessibility_menu()
        }
    }

    /// An item with an empty menu that shows nothing.
    pub fn new() -> (manager: Self)
        ensures
            manager.wf(),
            manager@ == blank(),
            manager@.rows.len() == 0,
            !manager@.running,
            manager@.widths.len() == 0,
            manager@.shown is None,
            manager@.pending is None,
    {
        let manager = MenuBarManager {
            menu: Vec::new(),
            width_items: Vec::new(),
            managed_window_items: Vec::new(),
            manage_item: None,
            copy_rule_item: None,
            configured_widths: Vec::new(),
            current_content: None,
            pending_content: None,
        };
        assert(manager@ =~= blank());
        manager
    }

    /// The rows of the menu, from top to bottom.
    pub fn rows(&self) -> (rows: &Vec<MenuRow>)
        ensures
            crate::menu::rows_view(rows@) == self@.rows,
            rows@.len() == self@.rows.len(),
            forall|i: int|
                0 <= i < rows@.len() ==> match #[trigger] rows@[i] {
                    MenuRow::Separator => self@.rows[i] == RowView::Separator,
                    MenuRow::Item(item) => self@.rows[i] == RowView::Item(
                        crate::menu::ItemView {
                            title: item.title@,
                            action: item.action,
                            tag: item.tag as int,
                            enabled: item.enabled,
                            checked: item.checked,
                        },
                    ),
                },
    {
        &self.menu
    }

    /// What the status item is to show next, if that is to change.
    pub fn pending(&self) -> (content: Option<&MenuBarContent>)
        ensures
            content is Some <==> self@.pending is Some,
            content is Some ==> self@.pending == Some(content->0@),
            content is Some ==> match *content->0 {
                MenuBarContent::Text(label) => self@.pending == Some(ContentView::Text(label@)),
                MenuBarContent::Workspaces { current, all } => self@.pending == Some(
                    ContentView::Workspaces { current, all: all@ },
                ),
            },
    {
        self.pending_content.as_ref()
    }

    /// Asks for `content` to be shown, unless it is up already.
    fn request(&mut self, content: MenuBarContent)
        requires
            old(self).wf(),
        ensures
            final(self).wf(),
            final(self)@ == old(self)@.after_request(content@),
    {
        let up = match &self.current_content {
            Some(current) => current.same_as(&content),
            None => false,
        };
        if up {
            self.pending_content = None;
        } else {
            self.pending_content = Some(content);
        }
    }

    /// Tells whether the pending content was put up. If it was not, the next
    /// request for it makes it pending again.
    pub fn finish_install(&mut self, installed: bool)
        requires
            old(self).wf(),
        ensures
            final(self).wf(),
            final(self)@ == old(self)@.after_install(installed),
            final(self)@.pending is None,
            final(self)@.shown == if installed && old(self)@.pending is Some {
                old(self)@.pending
            } else {
                old(self)@.shown
            },
            final(self)@.rows == old(self)@.rows,
            final(self)@.running == old(self)@.running,
            final(self)@.widths == old(self)@.widths,
    {
        let pending = self.pending_content.take();
        if installed {
            if let Some(content) = pending {
                self.current_content = Some(content);
            }
        }
    }

    /// Asks for a plain label to be shown.
    pub fn show_text(&mut self, label: &str)
        requires
            old(self).wf(),
        ensures
            final(self).wf(),
            final(self)@ == old(self)@.after_request(ContentView::Text(label@)),
            final(self)@.pending == if old(self)@.shown == Some(ContentView::Text(label@)) {
                None
            } else {
                Some(ContentView::Text(label@))
            },
            final(self)@.shown == old(self)@.shown,
            final(self)@.rows == old(self)@.rows,
            final(self)@.running == old(self)@.running,
            final(self)@.widths == old(self)@.widths,
    {
        self.request(MenuBarContent::Text(label.to_owned()));
    }

    /// Asks for the workspaces to be shown, with the active one among them.
    pub fn show_workspaces(&mut self, current: Option<u32>, all: &[u32])
        requires
            old(self).wf(),
        ensures
            final(self).wf(),
            final(self)@ == old(self)@.after_request(
                ContentView::Workspaces { current, all: all@ },
            ),
            final(self)@.pending == if old(self)@.shown == Some(
                ContentView::Workspaces { current, all: all@ },
            ) {
                None
            } else {
                Some(ContentView::Workspaces { current, all: all@ })
            },
            final(self)@.shown == old(self)@.shown,
            final(self)@.rows == old(self)@.rows,
            final(self)@.running == old(self)@.running,
            final(self)@.widths == old(self)@.widths,
    {
        self.request(
            MenuBarContent::Workspaces { current, all: vstd::slice::slice_to_vec(all) },
        );
    }

    /// An item that tells that the accessibility privilege is missing.
    pub fn new_accessibility_required() -> (manager: Self)
        ensures
            manager.wf(),
            manager@ == (ManagerView {
                rows: crate::menu::accessibility_menu(),
                ..blank()
            }).after_request(ContentView::Text("!"@)),
            manager@.rows == crate::menu::accessibility_menu(),
            !manager@.running,
            manager@.widths.len() == 0,
            manager@.shown is None,
            manager@.pending == Some(ContentView::Text("!"@)),
    {
        let mut manager = MenuBarManager::new();
        manager.rebuild_accessibility_menu();
        manager.show_text("!");
        manager
    }

    /// Puts up the menu that leads to the accessibility settings.
    fn rebuild_accessibility_menu(&mut self)
        requires
            old(self).wf(),
            !old(self)@.running,
        ensures
            final(self).wf(),
            final(self)@ == (ManagerView {
                rows: crate::menu::accessibility_menu(),
                ..old(self)@
            }),
    {
        self.menu.clear();

        let status: usize = add_item(
            &mut self.menu,
            "Paneru — Accessibility Required".to_owned(),
            None,
        );
        set_enabled(&mut self.menu, status, false);

        let hint: usize = add_item(
            &mut self.menu,
            "Grant access; Paneru will start automatically".to_owned(),
            None,
        );
        set_enabled(&mut self.menu, hint, false);

        add_separator(&mut self.menu);
        add_item(
            &mut self.menu,
            "Show Setup Instructions…".to_owned(),
            Some(MenuAction::ShowAccessibilityInstructions),
        );
        add_item(
            &mut self.menu,
            "Open Accessibility Settings…".to_owned(),
            Some(MenuAction::OpenAccessibilitySettings),
        );

        add_separator(&mut self.menu);
        add_item(&mut self.menu, "Quit Paneru".to_owned(), Some(MenuAction::QuitPaneru));

        assert(self@.rows =~= crate::menu::accessibility_menu());
        assert(self@ =~= (ManagerView {
            rows: crate::menu::accessibility_menu(),
            ..old(self)@
        }));
    }

    /// Builds the menu of a running window manager for these widths, with every
    /// entry enabled and no width checked.
    fn rebuild_menu(&mut self, widths: &Vec<i32>)
        ensures
            final(self).wf(),
            final(self)@ == (ManagerView {
                rows: crate::menu::running_menu(
                    widths@,
                    true,
                    true,
                    Seq::new(widths@.len(), |i: int| false),
                ),
                running: true,
                widths: widths@,
                ..old(self)@
            }),
    {
        self.menu.clear();
        self.width_items.clear();
        self.managed_window_items.clear();
        self.manage_item = None;
        self.copy_rule_item = None;

        let status: usize = add_item(&mut self.menu, "Paneru — Running".to_owned(), None);
        set_enabled(&mut self.menu, status, false);
        add_separator(&mut self.menu);

        let width_header: usize = add_item(&mut self.menu, "Window width".to_owned(), None);
        set_enabled(&mut self.menu, width_header, false);
        let ghost head = crate::menu::running_head();
        let ghost unchecked = Seq::new(widths@.len(), |i: int| false);
        let ghost offered = crate::menu::width_rows(widths@, true, unchecked);
        assert(crate::menu::rows_view(self.menu@) =~= head + offered.take(0));

        let mut i: usize = 0;
        while i < widths.len()
            invariant
                i <= widths.len(),
                head.len() == 3,
                offered == crate::menu::width_rows(widths@, true, unchecked),
                unchecked == Seq::new(widths@.len(), |i: int| false),
                crate::menu::rows_view(self.menu@) == head + offered.take(i as int),
                self.width_items.len() == i,
                self.managed_window_items.len() == i,
                forall|k: int|
                    0 <= k < i ==> (#[trigger] self.width_items@[k]).0 == widths@[k]
                        && self.width_items@[k].1 == k + 3,
                forall|k: int| 0 <= k < i ==> #[trigger] self.managed_window_items@[k] == k + 3,
                self.current_content == old(self).current_content,
                self.pending_content == old(self).pending_content,
            decreases widths.len() - i,
        {
            let percentage: i32 = widths[i];
            let item: usize = add_item(
                &mut self.menu,
                width_title(percentage),
                Some(MenuAction::SetWidth),
            );
            set_tag(&mut self.menu, item, percentage as isize);
            self.managed_window_items.push(item);
            self.width_items.push((percentage, item));
            assert(crate::menu::rows_view(self.menu@) =~= head + offered.take(i + 1));
            i = i + 1;
        }
        assert(offered.take(widths.len() as int) =~= offered);

        add_separator(&mut self.menu);
        let center: usize = add_item(
            &mut self.menu,
            "Center Window".to_owned(),
            Some(MenuAction::CenterWindow),
        );
        let manage: usize = add_item(
            &mut self.menu,
            "Toggle Managed".to_owned(),
            Some(MenuAction::ToggleManaged),
        );
        self.managed_window_items.push(center);
        self.manage_item = Some(manage);

        add_separator(&mut self.menu);
        let copy_rule: usize = add_item(
            &mut self.menu,
            "Copy Window Rule".to_owned(),
            Some(MenuAction::CopyWindowRule),
        );
        self.copy_rule_item = Some(copy_rule);

        add_separator(&mut self.menu);
        add_item(&mut self.menu, "Quit Paneru".to_owned(), Some(MenuAction::QuitPaneru));
        self.configured_widths = vstd::slice::slice_to_vec(widths.as_slice());

        let ghost built = crate::menu::running_menu(widths@, true, true, unchecked);
        assert(self@.rows =~= built);
        assert(Seq::new(widths@.len(), |i: int| row_checked(built[i + 3])) =~= unchecked);
    }

    /// Enables the entries for managed windows and those for any focused
    /// window, each group as a whole.
    fn enable_entries(&mut self, enablement: WindowMenuEnablement)
        requires
            old(self).wf(),
        ensures
            final(self).wf(),
            final(self)@ == (ManagerView { rows: final(self)@.rows, ..old(self)@ }),
            !old(self)@.running ==> final(self)@.rows == old(self)@.rows,
            old(self)@.running ==> exists|checked: Seq<bool>|
                final(self)@.rows == #[trigger] crate::menu::running_menu(
                    old(self)@.widths,
                    enablement.managed_actions,
                    enablement.toggle_managed,
                    checked,
                ),
    {
        let managed = enablement.managed_actions;
        let toggle = enablement.toggle_managed;
        let ghost before = self@.rows;
        let ghost n = self@.widths.len() as int;
        let mut i: usize = 0;
        while i < self.managed_window_items.len()
            invariant
                i <= self.managed_window_items.len(),
                before == old(self)@.rows,
                n == old(self)@.widths.len(),
                old(self).wf(),
                old(self)@.running ==> before.len() == n + 10,
                self.menu.len() == before.len(),
                self.width_items == old(self).width_items,
                self.managed_window_items == old(self).managed_window_items,
                self.manage_item == old(self).manage_item,
                self.copy_rule_item == old(self).copy_rule_item,
                self.configured_widths == old(self).configured_widths,
                self.current_content == old(self).current_content,
                self.pending_content == old(self).pending_content,
                forall|k: int|
                    0 <= k < before.len() ==> #[trigger] crate::menu::rows_view(self.menu@)[k] == (
                    if (3 <= k < 3 + i && k < 3 + n) || (i == n + 1 && k == n + 4) {
                        crate::menu::with_enabled(before[k], managed)
                    } else {
                        before[k]
                    }),
            decreases self.managed_window_items.len() - i,
        {
            let item: usize = self.managed_window_items[i];
            set_enabled(&mut self.menu, item, managed);
            i = i + 1;
        }
        if let Some(manage) = self.manage_item {
            set_enabled(&mut self.menu, manage, toggle);
        }
        if let Some(copy_rule) = self.copy_rule_item {
            set_enabled(&mut self.menu, copy_rule, toggle);
        }
        proof {
            let rows = self@.rows;
            let widths = old(self)@.widths;
            if old(self)@.running {
                let checked = Seq::new(widths.len(), |i: int| row_checked(before[i + 3]));
                assert(rows =~= crate::menu::running_menu(widths, managed, toggle, checked));
                assert(Seq::new(widths.len(), |i: int| row_checked(rows[i + 3])) =~= checked);
            } else {
                assert(rows =~= before);
            }
        }
    }

    /// Checks the widths that the focused managed window has.
    fn mark_widths(&mut self, focused_width: Option<&FocusedWidth>)
        requires
            old(self).wf(),
        ensures
            final(self).wf(),
            final(self)@ == (ManagerView { rows: final(self)@.rows, ..old(self)@ }),
            !old(self)@.running ==> final(self)@.rows == old(self)@.rows,
            forall|managed: bool, toggle: bool, checked: Seq<bool>|
                old(self)@.running && old(self)@.rows == #[trigger] crate::menu::running_menu(
                    old(self)@.widths,
                    managed,
                    toggle,
                    checked,
                ) ==> final(self)@.rows == crate::menu::running_menu(
                    old(self)@.widths,
                    managed,
                    toggle,
                    checks(old(self)@.widths, matching_view(focused_width)),
                ),
    {
        let ghost before = self@.rows;
        let ghost widths = self@.widths;
        let ghost n = widths.len() as int;
        let ghost matching = matching_view(focused_width);
        let mut i: usize = 0;
        while i < self.width_items.len()
            invariant
                i <= self.width_items.len(),
                before == old(self)@.rows,
                widths == old(self)@.widths,
                n == widths.len(),
                matching == matching_view(focused_width),
                old(self).wf(),
                old(self)@.running ==> before.len() == n + 10,
                self.menu.len() == before.len(),
                self.width_items == old(self).width_items,
                self.managed_window_items == old(self).managed_window_items,
                self.manage_item == old(self).manage_item,
                self.copy_rule_item == old(self).copy_rule_item,
                self.configured_widths == old(self).configured_widths,
                self.current_content == old(self).current_content,
                self.pending_content == old(self).pending_content,
                forall|k: int|
                    0 <= k < before.len() ==> #[trigger] crate::menu::rows_view(self.menu@)[k] == (
                    if 3 <= k < 3 + i {
                        crate::menu::with_checked(before[k], width_checked(matching, widths[k - 3]))
                    } else {
                        before[k]
                    }),
            decreases self.width_items.len() - i,
        {
            let (percentage, item) = self.width_items[i];
            let selected = match focused_width {
                Some(width) => contains_percentage(&width.matching, percentage),
                None => false,
            };
            set_checked(&mut self.menu, item, selected);
            i = i + 1;
        }
        proof {
            let rows = self@.rows;
            if old(self)@.running {
                assert forall|managed: bool, toggle: bool, checked: Seq<bool>|
                    before == #[trigger] crate::menu::running_menu(
                        widths,
                        managed,
                        toggle,
                        checked,
                    ) implies rows == crate::menu::running_menu(
                    widths,
                    managed,
                    toggle,
                    checks(widths, matching),
                ) by {
                    assert(rows =~= crate::menu::running_menu(
                        widths,
                        managed,
                        toggle,
                        checks(widths, matching),
                    ));
                }
                assert(Seq::new(widths.len(), |i: int| row_checked(rows[i + 3])) =~= checks(
                    widths,
                    matching,
                ));
            } else {
                assert(rows =~= before);
            }
        }
    }

    /// Brings the menu in line with the configured widths and the focused
    /// window, and asks for the workspaces to be shown. Tells whether the menu
    /// was built anew.
    ///
    /// `focused_width` is the width of the focused window if that is managed.
    pub fn update(
        &mut self,
        virtual_index: u32,
        virtual_indices: &[u32],
        config: &Config,
        has_focused_window: bool,
        focused_width: Option<&FocusedWidth>,
    ) -> (rebuilt: bool)
        requires
            old(self).wf(),
        ensures
            final(self).wf(),
            final(self)@ == old(self)@.after_update(
                virtual_index,
                virtual_indices@,
                *config,
                has_focused_window,
                matching_view(focused_width),
            ),
            rebuilt == (old(self)@.widths != crate::widths::normalized_widths(
                config.preset_width_percentages@,
            )),
            // What every row is, whatever it was before.
            forall|i: int|
                0 <= i < final(self)@.rows.len() ==> match #[trigger] final(self)@.rows[i] {
                    RowView::Separator => true,
                    RowView::Item(item) => {
                        &&& item.action == Some(MenuAction::SetWidth) || item.action == Some(
                            MenuAction::CenterWindow,
                        ) ==> item.enabled == (focused_width is Some)
                        &&& item.action == Some(MenuAction::ToggleManaged) || item.action == Some(
                            MenuAction::CopyWindowRule,
                        ) ==> item.enabled == (has_focused_window)
                        &&& item.action == Some(MenuAction::SetWidth) ==> {
                            &&& i32::MIN <= item.tag <= i32::MAX
                            &&& item.checked == (focused_width is Some && focused_width->0.matching@.contains(
                                item.tag as i32,
                            ))
                        }
                        &&& item.action != Some(MenuAction::SetWidth) ==> !item.checked
                        &&& item.action == Some(MenuAction::QuitPaneru) ==> item.enabled
                        &&& item.action is None ==> !item.enabled
                    },
                },
            // Which rows there are.
            crate::widths::normalized_widths(config.preset_width_percentages@).len() > 0
                || old(self)@.running ==> final(self)@.rows == crate::menu::running_menu(
                crate::widths::normalized_widths(config.preset_width_percentages@),
                focused_width is Some,
                has_focused_window,
                Seq::new(
                    crate::widths::normalized_widths(config.preset_width_percentages@).len(),
                    |i: int|
                        focused_width is Some && focused_width->0.matching@.contains(
                            crate::widths::normalized_widths(config.preset_width_percentages@)[i],
                        ),
                ),
            ),
            crate::widths::normalized_widths(config.preset_width_percentages@).len() == 0
                && !old(self)@.running ==> final(self)@.rows == old(self)@.rows,
            final(self)@.widths == crate::widths::normalized_widths(
                config.preset_width_percentages@,
            ),
            final(self)@.running == (old(self)@.running || crate::widths::normalized_widths(
                config.preset_width_percentages@,
            ).len() > 0),
            // What is to be shown.
            final(self)@.shown == old(self)@.shown,
            config.workspace_menu_status ==> final(self)@.pending == if old(self)@.shown == Some(
                ContentView::Workspaces { current: Some(virtual_index), all: virtual_indices@ },
            ) {
                None
            } else {
                Some(
                    ContentView::Workspaces { current: Some(virtual_index), all: virtual_indices@ },
                )
            },
            !config.workspace_menu_status ==> final(self)@.pending == if old(self)@.shown == Some(
                ContentView::Workspaces { current: None, all: Seq::<u32>::empty() },
            ) {
                None
            } else {
                Some(ContentView::Workspaces { current: None, all: Seq::<u32>::empty() })
            },
    {
        let widths = normalized_width_percentages(config.preset_width_percentages.as_slice());
        let rebuilt = !same_widths(&self.configured_widths, &widths);
        if rebuilt {
            self.rebuild_menu(&widths);
        }
        let enablement = window_menu_enablement(has_focused_window, focused_width);
        self.enable_entries(enablement);
        self.mark_widths(focused_width);
        assert(self@ =~= old(self)@.after_menu_update(
            widths@,
            has_focused_window,
            matching_view(focused_width),
        ));

        if config.workspace_menu_status {
            self.show_workspaces(Some(virtual_index), virtual_indices);
        } else {
            let none: Vec<u32> = Vec::new();
            assert(none@ =~= Seq::<u32>::empty());
            self.show_workspaces(None, none.as_slice());
        }
        proof {
            let matching = matching_view(focused_width);
            let checked = checks(widths@, matching);
            if widths@.len() == 0 && old(self)@.widths.len() == 0 {
                assert(widths@ =~= old(self)@.widths);
            }
            assert(checked =~= Seq::new(
                widths@.len(),
                |i: int|
                    focused_width is Some && focused_width->0.matching@.contains(widths@[i]),
            ));
            if self@.running {
                assert forall|i: int| 0 <= i < self@.rows.len() implies row_follows_focus(
                    #[trigger] self@.rows[i],
                    has_focused_window,
                    matching,
                ) by {
                    crate::menu::running_rows_lead_where_they_say(
                        widths@,
                        focused_width is Some,
                        has_focused_window,
                        checked,
                        i,
                    );
                }
            }
            assert forall|i: int| 0 <= i < self@.rows.len() implies row_follows_focus(
                #[trigger] self@.rows[i],
                has_focused_window,
                matching,
            ) by {
                if !self@.running {
                    crate::menu::accessibility_rows_lead_where_they_say(i);
                }
            }
        }
        rebuilt
    }
}

/// Once the workspaces were put up, updating again with nothing new changes
/// nothing and asks for nothing.
pub proof fn updates_settle(
    item: ManagerView,
    virtual_index: u32,
    virtual_indices: Seq<u32>,
    config: Config,
    has_focused_window: bool,
    matching: Option<Seq<i32>>,
)
    ensures
        ({
            let settled = item.after_update(
                virtual_index,
                virtual_indices,
                config,
                has_focused_window,
                matching,
            ).after_install(true);
            settled.after_update(
                virtual_index,
                virtual_indices,
                config,
                has_focused_window,
                matching,
            ) == settled
        }),
{
}

/// Content that could not be put up is asked for again by the next update.
pub proof fn failed_installs_are_retried(
    item: ManagerView,
    virtual_index: u32,
    virtual_indices: Seq<u32>,
    config: Config,
    has_focused_window: bool,
    matching: Option<Seq<i32>>,
)
    ensures
        ({
            let asked = item.after_update(
                virtual_index,
                virtual_indices,
                config,
                has_focused_window,
                matching,
            );
            asked.after_install(false).after_update(
                virtual_index,
                virtual_indices,
                config,
                has_focused_window,
                matching,
            ) == asked
        }),
{
}

/// A menu that has not been built for a running window manager is built by the
/// first update that has a width to offer, and left as it is by one that has
/// none.
pub proof fn first_width_builds_the_menu(
    item: ManagerView,
    virtual_index: u32,
    virtual_indices: Seq<u32>,
    config: Config,
    has_focused_window: bool,
    matching: Option<Seq<i32>>,
)
    requires
        !item.running,
        item.widths.len() == 0,
    ensures
        ({
            let widths = crate::widths::normalized_widths(config.preset_width_percentages@);
            let updated = item.after_update(
                virtual_index,
                virtual_indices,
                config,
                has_focused_window,
                matching,
            );
            &&& updated.running <==> widths.len() > 0
            &&& widths.len() > 0 ==> updated.rows == crate::menu::running_menu(
                widths,
                matching is Some,
                has_focused_window,
                checks(widths, matching),
            )
            &&& widths.len() == 0 ==> updated.rows == item.rows
        }),
{
    let widths = crate::widths::normalized_widths(config.preset_width_percentages@);
    if widths.len() == 0 {
        assert(widths =~= item.widths);
    }
}

/// Without a managed window in focus no width is checked.
pub proof fn no_width_is_checked_without_managed_focus(widths: Seq<i32>)
    ensures
        checks(widths, None) == Seq::new(widths.len(), |i: int| false),
{
    assert(checks(widths, None) =~= Seq::new(widths.len(), |i: int| false));
}

/// A running window manager's menu is the one for the widths it was built for,
/// at every moment; any other menu offers no width.
pub proof fn menu_matches_its_widths(manager: &MenuBarManager)
    requires
        manager.wf(),
    ensures
        manager@.running ==> exists|managed: bool, toggle: bool, checked: Seq<bool>|
            manager@.rows == #[trigger] crate::menu::running_menu(
                manager@.widths,
                managed,
                toggle,
                checked,
            ),
        !manager@.running ==> manager@.widths.len() == 0,
{
    if manager@.running {
        let rows = manager@.rows;
        let widths = manager@.widths;
        let n = widths.len() as int;
        assert(rows == crate::menu::running_menu(
            widths,
            row_enabled(rows[n + 4]),
            row_enabled(rows[n + 5]),
            Seq::new(widths.len(), |i: int| row_checked(rows[i + 3])),
        ));
    }
}

/// However the menu stood before, after an update of a menu that is running or
/// built anew the entries for managed windows are enabled exactly while a
/// managed window is focused, those for any window exactly while one is, and a
/// width is checked exactly where the focused managed window has it.
pub proof fn updated_rows_follow_the_focus(
    item: ManagerView,
    virtual_index: u32,
    virtual_indices: Seq<u32>,
    config: Config,
    has_focused_window: bool,
    matching: Option<Seq<i32>>,
)
    requires
        item.running || item.widths != crate::widths::normalized_widths(
            config.preset_width_percentages@,
        ),
    ensures
        ({
            let widths = crate::widths::normalized_widths(config.preset_width_percentages@);
            let rows = item.after_update(
                virtual_index,
                virtual_indices,
                config,
                has_focused_window,
                matching,
            ).rows;
            &&& rows.len() == widths.len() + 10
            &&& forall|i: int|
                0 <= i < widths.len() ==> match #[trigger] rows[i + 3] {
                    RowView::Separator => false,
                    RowView::Item(entry) => {
                        &&& entry.action == Some(MenuAction::SetWidth)
                        &&& entry.tag == widths[i]
                        &&& entry.enabled == (matching is Some)
                        &&& entry.checked == (matching is Some && matching->0.contains(widths[i]))
                    },
                }
            &&& forall|i: int|
                0 <= i < rows.len() ==> match #[trigger] rows[i] {
                    RowView::Separator => true,
                    RowView::Item(entry) => {
                        &&& entry.action == Some(MenuAction::SetWidth) || entry.action == Some(
                            MenuAction::CenterWindow,
                        ) ==> entry.enabled == (matching is Some)
                        &&& entry.action == Some(MenuAction::ToggleManaged) || entry.action == Some(
                            MenuAction::CopyWindowRule,
                        ) ==> entry.enabled == has_focused_window
                        &&& entry.action == Some(MenuAction::QuitPaneru) ==> entry.enabled
                        &&& entry.action != Some(MenuAction::SetWidth) ==> !entry.checked
                    },
                }
        }),
{
    let widths = crate::widths::normalized_widths(config.preset_width_percentages@);
    let checked = checks(widths, matching);
    let rows = item.after_update(
        virtual_index,
        virtual_indices,
        config,
        has_focused_window,
        matching,
    ).rows;
    crate::menu::running_menu_rows(widths, matching is Some, has_focused_window, checked);
    assert forall|i: int| 0 <= i < rows.len() implies row_follows_focus(
        #[trigger] rows[i],
        has_focused_window,
        matching,
    ) by {
        crate::menu::running_rows_lead_where_they_say(
            widths,
            matching is Some,
            has_focused_window,
            checked,
            i,
        );
    }
}

/// What the menu reads as after an update does not depend on which window was
/// focused before, or on how the menu came to be: any two menus that are running
/// or built anew are the same after the same update.
pub proof fn updates_forget_the_earlier_focus(
    a: ManagerView,
    b: ManagerView,
    virtual_index: u32,
    virtual_indices: Seq<u32>,
    config: Config,
    has_focused_window: bool,
    matching: Option<Seq<i32>>,
)
    requires
        a.running || a.widths != crate::widths::normalized_widths(config.preset_width_percentages@),
        b.running || b.widths != crate::widths::normalized_widths(config.preset_width_percentages@),
    ensures
        a.after_update(
            virtual_index,
            virtual_indices,
            config,
            has_focused_window,
            matching,
        ).rows == b.after_update(
            virtual_index,
            virtual_indices,
            config,
            has_focused_window,
            matching,
        ).rows,
{
}

/// An update asks for exactly what is not up already: the workspaces as given
/// while their status is on, and no workspace while it is off. What is up stays
/// up until something was installed.
pub proof fn updates_ask_for_what_is_not_up(
    item: ManagerView,
    virtual_index: u32,
    virtual_indices: Seq<u32>,
    config: Config,
    has_focused_window: bool,
    matching: Option<Seq<i32>>,
)
    ensures
        ({
            let wanted = if config.workspace_menu_status {
                ContentView::Workspaces { current: Some(virtual_index), all: virtual_indices }
            } else {
                ContentView::Workspaces { current: None, all: Seq::empty() }
            };
            let asked = item.after_update(
                virtual_index,
                virtual_indices,
                config,
                has_focused_window,
                matching,
            );
            &&& asked.shown == item.shown
            &&& item.shown == Some(wanted) ==> asked.pending is None
            &&& item.shown != Some(wanted) ==> asked.pending == Some(wanted)
            &&& asked.after_install(true).shown == Some(wanted)
            &&& asked.after_install(false).shown == item.shown
        }),
{
}

} // verus!
