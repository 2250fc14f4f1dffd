//! What choosing a menu entry does.

use vstd::prelude::*;

verus! {

/// What a window can be told to do from the menu.
#[derive(Clone, Copy, Debug, PartialEq, Eq, Structural)]
pub enum Operation {
    /// Take up this percentage of the display's width.
    SetWidth(i32),
    Center,
    Manage,
    CopyRule,
}

/// A command to the window manager.
#[derive(Clone, Copy, Debug, PartialEq, Eq, Structural)]
pub enum Command {
    Window(Operation),
    Quit,
}

/// An event for the window manager.
#[derive(Clone, Copy, Debug, PartialEq, Eq, Structural)]
pub enum Event {
    Command { command: Command },
}

/// What a menu entry is bound to.
#[derive(Clone, Copy, Debug, PartialEq, Eq, Structural)]
pub enum MenuAction {
    SetWidth,
    CenterWindow,
    ToggleManaged,
    CopyWindowRule,
    OpenAccessibilitySettings,
    ShowAccessibilityInstructions,
    QuitPaneru,
}

/// How the user left the accessibility instructions.
#[derive(Clone, Copy, Debug, PartialEq, Eq, Structural)]
pub enum AccessibilitySetupAction {
    /// Ready to grant the privilege.
    Continue,
    /// Closed without going on.
    Dismiss,
}

/// What is left for the program to do once an entry was chosen.
#[derive(Clone, Copy, Debug, PartialEq, Eq, Structural)]
pub enum FollowUp {
    /// Nothing but to deliver the queued events.
    Deliver,
    OpenAccessibilitySettings,
    ShowAccessibilityInstructions,
}

/// A program to start, with its only argument.
pub struct Launch {
    pub program: &'static str,
    pub argument: &'static str,
}

/// The command that an entry sends when it is chosen, if it sends one. A width
/// entry carries its percentage as its tag.
pub open spec fn action_command(action: MenuAction, tag: int) -> Option<Command> {
    match action {
        MenuAction::SetWidth => if i32::MIN <= tag <= i32::MAX {
            Some(Command::Window(Operation::SetWidth(tag as i32)))
        } else {
            None
        },
        MenuAction::CenterWindow => Some(Command::Window(Operation::Center)),
        MenuAction::ToggleManaged => Some(Command::Window(Operation::Manage)),
        MenuAction::CopyWindowRule => Some(Command::Window(Operation::CopyRule)),
        MenuAction::OpenAccessibilitySettings => None,
        MenuAction::ShowAccessibilityInstructions => None,
        MenuAction::QuitPaneru => Some(Command::Quit),
    }
}

/// A queue of events with the one for `command` behind it.
pub open spec fn with_command(events: Seq<Event>, command: Option<Command>) -> Seq<Event> {
    match command {
        Some(command) => events.push(Event::Command { command }),
        None => events,
    }
}

/// What is left to do once an entry bound to `action` was chosen.
pub open spec fn action_follow_up(action: MenuAction) -> FollowUp {
    match action {
        MenuAction::OpenAccessibilitySettings => FollowUp::OpenAccessibilitySettings,
        MenuAction::ShowAccessibilityInstructions => FollowUp::ShowAccessibilityInstructions,
        _ => FollowUp::Deliver,
    }
}

/// The target of the menu's entries. It queues the events that the program
/// delivers to the window manager.
pub struct MenuActionTarget {
    events: Vec<Event>,
}

impl View for MenuActionTarget {
    type V = Seq<Event>;

    /// The events that wait for delivery, oldest first.
    closed spec fn view(&self) -> Seq<Event> {
        self.events@
    }
}

impl MenuActionTarget {
    /// A target with nothing to deliver.
    pub fn new() -> (target: Self)
        ensures
            target@ == Seq::<Event>::empty(),
    {
        MenuActionTarget { events: Vec::new() }
    }

    /// Queues the event for `command`.
    pub fn send_command(&mut self, command: Command)
        ensures
            final(self)@ == old(self)@.push(Event::Command { command }),
    {
        self.events.push(Event::Command { command });
    }

    /// Takes the queued events out for delivery.
    pub fn take_events(&mut self) -> (events: Vec<Event>)
        ensures
            events@ == old(self)@,
            final(self)@ == Seq::<Event>::empty(),
    {
        let mut events: Vec<Event> = Vec::new();
        std::mem::swap(&mut events, &mut self.events);
        events
    }

    /// Asks for the width that the chosen entry carries as its tag. A tag that
    /// is no percentage is ignored.
    pub fn set_width(&mut self, tag: isize)
        ensures
            final(self)@ == with_command(
                old(self)@,
                action_command(MenuAction::SetWidth, tag as int),
            ),
            i32::MIN <= tag <= i32::MAX ==> final(self)@ == old(self)@.push(
                Event::Command { command: Command::Window(Operation::SetWidth(tag as i32)) },
            ),
            !(i32::MIN <= tag <= i32::MAX) ==> final(self)@ == old(self)@,
    {
        let wide: i64 = tag as i64;
        if wide < i32::MIN as i64 || wide > i32::MAX as i64 {
            return;
        }
        let percentage: i32 = wide as i32;
        self.send_command(Command::Window(Operation::SetWidth(percentage)));
    }

    /// Asks for the focused window to be centered.
    pub fn center_window(&mut self)
        ensures
            final(self)@ == old(self)@.push(
                Event::Command { command: Command::Window(Operation::Center) },
            ),
    {
        self.send_command(Command::Window(Operation::Center));
    }

    /// Asks for the focused window to be managed, or no longer.
    pub fn toggle_managed(&mut self)
        ensures
            final(self)@ == old(self)@.push(
                Event::Command { command: Command::Window(Operation::Manage) },
            ),
    {
        self.send_command(Command::Window(Operation::Manage));
    }

    /// Asks for the rule of the focused window to be copied.
    pub fn copy_window_rule(&mut self)
        ensures
            final(self)@ == old(self)@.push(
                Event::Command { command: Command::Window(Operation::CopyRule) },
            ),
    {
        self.send_command(Command::Window(Operation::CopyRule));
    }

    /// Asks the window manager to quit.
    pub fn quit_paneru(&mut self)
        ensures
            final(self)@ == old(self)@.push(Event::Command { command: Command::Quit }),
    {
        self.send_command(Command::Quit);
    }

    /// What to start for the system's accessibility settings to come up.
    pub fn open_accessibility_settings(&self) -> (launch: Launch)
        ensures
            launch.program@ == "/usr/bin/open"@,
            launch.argument@
                == "x-apple.systempreferences:com.apple.preference.security?Privacy_Accessibility"@,
    {
        Launch {
            program: "/usr/bin/open",
            argument: "x-apple.systempreferences:com.apple.preference.security?Privacy_Accessibility",
        }
    }

    /// Whether to ask the system for the privilege: only once the user chose
    /// to go on. `setup` is how the instructions were left, or nothing where
    /// they could not be shown because this is not the main thread.
    pub fn show_accessibility_instructions(
        &self,
        setup: Option<AccessibilitySetupAction>,
    ) -> (request: bool)
        ensures
            request == (setup == Some(AccessibilitySetupAction::Continue)),
    {
        match setup {
            Some(AccessibilitySetupAction::Continue) => true,
            Some(AccessibilitySetupAction::Dismiss) => false,
            None => false,
        }
    }

    /// Does what the chosen entry is bound to, and tells what is left to do.
    pub fn perform(&mut self, action: MenuAction, tag: isize) -> (follow_up: FollowUp)
        ensures
            final(self)@ == with_command(old(self)@, action_command(action, tag as int)),
            follow_up == action_follow_up(action),
            match action {
                MenuAction::SetWidth => {
                    &&& follow_up == FollowUp::Deliver
                    &&& i32::MIN <= tag <= i32::MAX ==> final(self)@ == old(self)@.push(
                        Event::Command { command: Command::Window(Operation::SetWidth(tag as i32)) },
                    )
                    &&& !(i32::MIN <= tag <= i32::MAX) ==> final(self)@ == old(self)@
                },
                MenuAction::CenterWindow => {
                    &&& follow_up == FollowUp::Deliver
                    &&& final(self)@ == old(self)@.push(
                        Event::Command { command: Command::Window(Operation::Center) },
                    )
                },
                MenuAction::ToggleManaged => {
                    &&& follow_up == FollowUp::Deliver
                    &&& final(self)@ == old(self)@.push(
                        Event::Command { command: Command::Window(Operation::Manage) },
                    )
                },
                MenuAction::CopyWindowRule => {
                    &&& follow_up == FollowUp::Deliver
                    &&& final(self)@ == old(self)@.push(
                        Event::Command { command: Command::Window(Operation::CopyRule) },
                    )
                },
                MenuAction::OpenAccessibilitySettings => {
                    &&& follow_up == FollowUp::OpenAccessibilitySettings
                    &&& final(self)@ == old(self)@
                },
                MenuAction::ShowAccessibilityInstructions => {
                    &&& follow_up == FollowUp::ShowAccessibilityInstructions
                    &&& final(self)@ == old(self)@
                },
                MenuAction::QuitPaneru => {
                    &&& follow_up == FollowUp::Deliver
                    &&& final(self)@ == old(self)@.push(Event::Command { command: Command::Quit })
                },
            },
    {
        match action {
            MenuAction::SetWidth => self.set_width(tag),
            MenuAction::CenterWindow => self.center_window(),
            MenuAction::ToggleManaged => self.toggle_managed(),
            MenuAction::CopyWindowRule => self.copy_window_rule(),
            MenuAction::OpenAccessibilitySettings => return FollowUp::OpenAccessibilitySettings,
            MenuAction::ShowAccessibilityInstructions => {
                return FollowUp::ShowAccessibilityInstructions;
            },
            MenuAction::QuitPaneru => self.quit_paneru(),
        }
        FollowUp::Deliver
    }
}

/// Choosing an entry queues at most one event, behind those that wait already,
/// and either queues one or leaves the program something to do, unless a width
/// entry carries no percentage.
pub proof fn choices_queue_at_most_one_event(events: Seq<Event>, action: MenuAction, tag: int)
    ensures
        ({
            let after = with_command(events, action_command(action, tag));
            let silent = action == MenuAction::OpenAccessibilitySettings || action
                == MenuAction::ShowAccessibilityInstructions || (action == MenuAction::SetWidth
                && !(i32::MIN <= tag <= i32::MAX));
            &&& after.len() == events.len() + (if silent {
                0int
            } else {
                1int
            })
            &&& after.take(events.len() as int) == events
        }),
        action_follow_up(action) == FollowUp::OpenAccessibilitySettings <==> action
            == MenuAction::OpenAccessibilitySettings,
        action_follow_up(action) == FollowUp::ShowAccessibilityInstructions <==> action
            == MenuAction::ShowAccessibilityInstructions,
{
    assert(with_command(events, action_command(action, tag)).take(events.len() as int) =~= events);
}

/// Different entries send different commands, and width entries with different
/// percentages ask for different widths.
pub proof fn commands_tell_entries_apart(a: MenuAction, tag_a: int, b: MenuAction, tag_b: int)
    requires
        action_command(a, tag_a) is Some,
        action_command(a, tag_a) == action_command(b, tag_b),
    ensures
        a == b,
        a == MenuAction::SetWidth ==> tag_a == tag_b,
{
}

} // verus!
