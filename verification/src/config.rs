//! The settings that decide what the menu bar item shows.

use vstd::prelude::*;

verus! {

/// What a position of the workspace indicator is written as.
#[derive(Clone, Copy, Debug, PartialEq, Eq, Structural)]
pub enum IndicatorFormat {
    /// The workspace's number.
    Default,
    /// The workspace's number as a Roman numeral.
    Roman,
    /// One character for the active workspace, another for the rest.
    Unicode,
    /// The active workspace's number among marks for the rest.
    Marked,
}

/// Which workspaces the indicator lists.
#[derive(Clone, Copy, Debug, PartialEq, Eq, Structural)]
pub enum IndicatorStyle {
    /// The active workspace alone.
    Mono,
    /// Every workspace.
    Multi,
    /// The active workspace out of the number of workspaces.
    Paged,
}

/// What stands beside the indicator.
#[derive(Clone, Copy, Debug, PartialEq, Eq, Structural)]
pub enum DescriptorStyle {
    Hidden,
    Symbol,
    Text,
    Both,
}

/// Which of descriptor and indicator comes first.
#[derive(Clone, Copy, Debug, PartialEq, Eq, Structural)]
pub enum MenubarOrientation {
    /// The descriptor, then the indicator.
    Default,
    /// The indicator, then the descriptor.
    Flipped,
}

/// The settings of the menu bar item.
pub struct Config {
    /// The preset column widths as whole percentages of the display, in the
    /// order they were configured.
    pub preset_width_percentages: Vec<i32>,
    /// Whether the item shows the virtual workspaces.
    pub workspace_menu_status: bool,
    pub menubar_orientation: MenubarOrientation,
    pub menubar_indicator_style: IndicatorStyle,
    pub menubar_indicator_format: IndicatorFormat,
    pub menubar_indicator_active_character: char,
    pub menubar_indicator_inactive_character: char,
    pub menubar_descriptor_style: DescriptorStyle,
    /// The name of the system symbol that the descriptor shows.
    pub menubar_descriptor_symbol: String,
    pub menubar_descriptor_text: String,
    /// How many colours the gradient over the content has.
    pub menubar_gradient_stops: usize,
}

} // verus!
