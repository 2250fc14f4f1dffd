use menubar::actions::{
    AccessibilitySetupAction, Command, Event, FollowUp, MenuAction, MenuActionTarget, Operation,
};
use menubar::config::{
    Config, DescriptorStyle, IndicatorFormat, IndicatorStyle, MenubarOrientation,
};
use menubar::content::MenuBarContent;
use menubar::manager::MenuBarManager;
use menubar::menu::{MenuItem, MenuRow};
use menubar::widths::{
    normalized_width_percentages, window_menu_enablement, FocusedWidth, WindowMenuEnablement,
};
use menubar::workspaces::{
    space_virtual_indices, update_menu_bar, FocusedWindow, LayoutStrip,
};

fn config(percentages: &[i32]) -> Config {
    Config {
        preset_width_percentages: percentages.to_vec(),
        workspace_menu_status: true,
        menubar_orientation: MenubarOrientation::Default,
        menubar_indicator_style: IndicatorStyle::Mono,
        menubar_indicator_format: IndicatorFormat::Default,
        menubar_indicator_active_character: '☉',
        menubar_indicator_inactive_character: '○',
        menubar_descriptor_style: DescriptorStyle::Text,
        menubar_descriptor_symbol: String::new(),
        menubar_descriptor_text: "Paneru".to_string(),
        menubar_gradient_stops: 0,
    }
}

/// Rounds the ratios that are widths to whole percentages.
fn percentages(ratios: &[f64]) -> Vec<i32> {
    ratios
        .iter()
        .copied()
        .filter(|ratio| ratio.is_finite() && *ratio > 0.0)
        .map(|ratio| ratio.mul_add(100.0, 0.0).round() as i32)
        .collect()
}

fn matching(percentages: &[i32]) -> FocusedWidth {
    FocusedWidth {
        matching: percentages.to_vec(),
    }
}

fn row(row: &MenuRow) -> String {
    match row {
        MenuRow::Separator => "---".to_string(),
        MenuRow::Item(item) => format!(
            "{}{}{}",
            item.title,
            if item.enabled { "" } else { " (off)" },
            if item.checked { " (checked)" } else { "" },
        ),
    }
}

fn rows(manager: &MenuBarManager) -> Vec<String> {
    manager.rows().iter().map(row).collect()
}

fn items(manager: &MenuBarManager) -> Vec<&MenuItem> {
    manager
        .rows()
        .iter()
        .filter_map(|row| match row {
            MenuRow::Separator => None,
            MenuRow::Item(item) => Some(item),
        })
        .collect()
}

fn pending_workspaces(manager: &MenuBarManager) -> Option<(Option<u32>, Vec<u32>)> {
    match manager.pending() {
        Some(MenuBarContent::Workspaces { current, all }) => Some((*current, all.clone())),
        Some(MenuBarContent::Text(label)) => panic!("unexpected label {label}"),
        None => None,
    }
}

#[test]
fn menu_widths_are_sorted_deduplicated_and_valid() {
    assert_eq!(
        normalized_width_percentages(&percentages(&[
            2.0,
            0.5,
            1.5,
            0.5,
            0.001,
            f64::NAN,
            -1.0
        ])),
        vec![50, 150, 200]
    );
}

#[test]
fn normalizing_widths_twice_changes_nothing() {
    let widths = normalized_width_percentages(&[75, 0, -3, 25, 75, 50, i32::MIN, i32::MAX]);
    assert_eq!(widths, vec![25, 50, 75, i32::MAX]);
    assert_eq!(normalized_width_percentages(&widths), widths);
    assert_eq!(normalized_width_percentages(&[50, i32::MAX, 25, 75]), widths);
    assert!(normalized_width_percentages(&[]).is_empty());
    assert!(normalized_width_percentages(&[0, -1]).is_empty());
}

#[test]
fn unmanaged_focus_only_enables_toggle_managed() {
    assert_eq!(
        window_menu_enablement(true, None),
        WindowMenuEnablement {
            managed_actions: false,
            toggle_managed: true,
        }
    );
    assert_eq!(
        window_menu_enablement(false, None),
        WindowMenuEnablement {
            managed_actions: false,
            toggle_managed: false,
        }
    );
    assert_eq!(
        window_menu_enablement(true, Some(&matching(&[100]))),
        WindowMenuEnablement {
            managed_actions: true,
            toggle_managed: true,
        }
    );
}

#[test]
fn new_item_is_blank() {
    let manager = MenuBarManager::new();
    assert!(manager.rows().is_empty());
    assert!(manager.pending().is_none());
}

#[test]
fn missing_accessibility_is_told_by_menu_and_label() {
    let mut manager = MenuBarManager::new_accessibility_required();
    assert_eq!(
        rows(&manager),
        [
            "Paneru — Accessibility Required (off)",
            "Grant access; Paneru will start automatically (off)",
            "---",
            "Show Setup Instructions…",
            "Open Accessibility Settings…",
            "---",
            "Quit Paneru",
        ]
    );
    assert!(matches!(manager.pending(), Some(MenuBarContent::Text(label)) if label == "!"));
    manager.finish_install(true);
    assert!(manager.pending().is_none());
    manager.show_text("!");
    assert!(manager.pending().is_none());
    manager.show_text("?");
    assert!(matches!(manager.pending(), Some(MenuBarContent::Text(label)) if label == "?"));
}

#[test]
fn running_menu_offers_the_widths() {
    let mut manager = MenuBarManager::new();
    let width = matching(&[50]);
    assert!(manager.update(0, &[0], &config(&[50, 33, 50]), true, Some(&width)));
    assert_eq!(
        rows(&manager),
        [
            "Paneru — Running (off)",
            "---",
            "Window width (off)",
            "33%",
            "50% (checked)",
            "---",
            "Center Window",
            "Toggle Managed",
            "---",
            "Copy Window Rule",
            "---",
            "Quit Paneru",
        ]
    );
}

#[test]
fn entries_follow_the_focused_window() {
    let mut manager = MenuBarManager::new();
    let config = config(&[50]);
    manager.update(0, &[0], &config, true, None);
    assert_eq!(
        rows(&manager),
        [
            "Paneru — Running (off)",
            "---",
            "Window width (off)",
            "50% (off)",
            "---",
            "Center Window (off)",
            "Toggle Managed",
            "---",
            "Copy Window Rule",
            "---",
            "Quit Paneru",
        ]
    );
    assert!(!manager.update(0, &[0], &config, false, None));
    let off: Vec<bool> = items(&manager).iter().map(|item| item.enabled).collect();
    assert_eq!(off, [false, false, false, false, false, false, true]);
    manager.update(0, &[0], &config, true, Some(&matching(&[])));
    let on: Vec<bool> = items(&manager).iter().map(|item| item.enabled).collect();
    assert_eq!(on, [false, false, true, true, true, true, true]);
    assert!(items(&manager).iter().all(|item| !item.checked));
}

#[test]
fn menu_is_rebuilt_only_for_other_widths() {
    let mut manager = MenuBarManager::new();
    assert!(manager.update(0, &[0], &config(&[50, 100]), true, None));
    assert!(!manager.update(1, &[0, 1], &config(&[100, 50, 50, -1]), false, None));
    assert!(manager.update(1, &[0, 1], &config(&[25]), false, None));
    assert_eq!(items(&manager)[2].title, "25%");
    assert!(manager.update(1, &[0, 1], &config(&[]), true, None));
    assert_eq!(items(&manager)[2].title, "Center Window");
    assert_eq!(manager.rows().len(), 10);
}

#[test]
fn item_without_widths_keeps_its_first_menu() {
    let mut blank = MenuBarManager::new();
    assert!(!blank.update(0, &[0], &config(&[]), true, None));
    assert!(blank.rows().is_empty());
    let mut required = MenuBarManager::new_accessibility_required();
    assert!(!required.update(0, &[0], &config(&[0]), true, None));
    assert_eq!(rows(&required)[0], "Paneru — Accessibility Required (off)");
    assert!(required.update(0, &[0], &config(&[50]), true, None));
    assert_eq!(rows(&required)[0], "Paneru — Running (off)");
}

#[test]
fn content_is_put_up_once() {
    let mut manager = MenuBarManager::new();
    let config = config(&[50]);
    manager.update(1, &[0, 1], &config, false, None);
    assert_eq!(pending_workspaces(&manager), Some((Some(1), vec![0, 1])));
    manager.finish_install(true);
    assert_eq!(pending_workspaces(&manager), None);
    manager.update(1, &[0, 1], &config, true, None);
    assert_eq!(pending_workspaces(&manager), None);
    manager.update(0, &[0, 1], &config, true, None);
    assert_eq!(pending_workspaces(&manager), Some((Some(0), vec![0, 1])));
}

#[test]
fn content_that_was_not_put_up_is_asked_for_again() {
    let mut manager = MenuBarManager::new();
    let config = config(&[50]);
    manager.update(1, &[0, 1], &config, false, None);
    manager.finish_install(false);
    assert_eq!(pending_workspaces(&manager), None);
    manager.update(1, &[0, 1], &config, false, None);
    assert_eq!(pending_workspaces(&manager), Some((Some(1), vec![0, 1])));
}

#[test]
fn hidden_status_shows_no_workspaces() {
    let mut manager = MenuBarManager::new();
    let mut config = config(&[50]);
    config.workspace_menu_status = false;
    manager.update(1, &[0, 1], &config, false, None);
    assert_eq!(pending_workspaces(&manager), Some((None, vec![])));
}

#[test]
fn choosing_a_width_asks_for_it() {
    let mut manager = MenuBarManager::new();
    manager.update(0, &[0], &config(&[33, 150]), true, Some(&matching(&[])));
    let mut target = MenuActionTarget::new();
    for item in items(&manager) {
        if let Some(action) = item.action {
            assert_eq!(target.perform(action, item.tag), FollowUp::Deliver);
        }
    }
    let command = |command| Event::Command { command };
    assert_eq!(
        target.take_events(),
        [
            command(Command::Window(Operation::SetWidth(33))),
            command(Command::Window(Operation::SetWidth(150))),
            command(Command::Window(Operation::Center)),
            command(Command::Window(Operation::Manage)),
            command(Command::Window(Operation::CopyRule)),
            command(Command::Quit),
        ]
    );
    assert!(target.take_events().is_empty());
}

#[test]
fn tags_that_are_no_percentages_are_ignored() {
    let mut target = MenuActionTarget::new();
    target.set_width(i32::MAX as isize + 1);
    target.set_width(i32::MIN as isize - 1);
    assert!(target.take_events().is_empty());
    target.set_width(i32::MIN as isize);
    assert_eq!(
        target.take_events(),
        [Event::Command {
            command: Command::Window(Operation::SetWidth(i32::MIN)),
        }]
    );
}

#[test]
fn sent_commands_keep_their_order() {
    let mut target = MenuActionTarget::new();
    target.send_command(Command::Quit);
    target.send_command(Command::Window(Operation::Center));
    assert_eq!(
        target.take_events(),
        [
            Event::Command {
                command: Command::Quit,
            },
            Event::Command {
                command: Command::Window(Operation::Center),
            },
        ]
    );
}

#[test]
fn accessibility_entries_are_left_to_the_program() {
    let mut target = MenuActionTarget::new();
    assert_eq!(
        target.perform(MenuAction::OpenAccessibilitySettings, 0),
        FollowUp::OpenAccessibilitySettings
    );
    assert_eq!(
        target.perform(MenuAction::ShowAccessibilityInstructions, 0),
        FollowUp::ShowAccessibilityInstructions
    );
    assert!(target.take_events().is_empty());
    let launch = target.open_accessibility_settings();
    assert_eq!(launch.program, "/usr/bin/open");
    assert_eq!(
        launch.argument,
        "x-apple.systempreferences:com.apple.preference.security?Privacy_Accessibility"
    );
    assert!(target.show_accessibility_instructions(Some(AccessibilitySetupAction::Continue)));
    assert!(!target.show_accessibility_instructions(Some(AccessibilitySetupAction::Dismiss)));
    assert!(!target.show_accessibility_instructions(None));
}

#[test]
fn space_lists_only_its_own_rows() {
    let strip = |id, virtual_index| LayoutStrip { id, virtual_index };
    let workspaces = [strip(7, 2), strip(8, 1), strip(7, 0), strip(7, 2), strip(9, 5)];
    assert_eq!(space_virtual_indices(&workspaces, 7), vec![0, 2]);
    assert_eq!(space_virtual_indices(&workspaces, 8), vec![1]);
    assert!(space_virtual_indices(&workspaces, 1).is_empty());
}

#[test]
fn item_follows_the_active_workspace() {
    let strip = |id, virtual_index| LayoutStrip { id, virtual_index };
    let active = strip(7, 2);
    let workspaces = [strip(7, 2), strip(8, 1), strip(7, 0)];
    let focused = [
        FocusedWindow {
            unmanaged: false,
            width: matching(&[50]),
        },
        FocusedWindow {
            unmanaged: true,
            width: matching(&[]),
        },
    ];
    let config = config(&[50]);
    let mut manager = MenuBarManager::new();
    assert_eq!(
        update_menu_bar(&active, &workspaces, &focused, &config, Some(&mut manager)),
        Some(true)
    );
    assert_eq!(pending_workspaces(&manager), Some((Some(2), vec![0, 2])));
    assert_eq!(rows(&manager)[3], "50% (checked)");
    assert_eq!(
        update_menu_bar(&active, &workspaces, &focused[1..], &config, Some(&mut manager)),
        Some(false)
    );
    assert_eq!(rows(&manager)[3], "50% (off)");
    assert_eq!(rows(&manager)[6], "Toggle Managed");
    assert_eq!(
        update_menu_bar(&active, &workspaces, &[], &config, Some(&mut manager)),
        Some(false)
    );
    assert_eq!(rows(&manager)[6], "Toggle Managed (off)");
    assert_eq!(update_menu_bar(&active, &workspaces, &focused, &config, None), None);
}
