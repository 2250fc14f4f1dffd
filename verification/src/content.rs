//! What the status item shows.

use vstd::prelude::*;

use crate::config::{Config, DescriptorStyle, MenubarOrientation};
use crate::descriptor::{build_descriptor, DescriptorPart, DescriptorPartView};
use crate::indicator::{build_indicator, FieldView, IndicatorField};

verus! {

/// What the status item is asked to show.
pub enum MenuBarContent {
    /// A plain label.
    Text(String),
    /// The virtual workspaces, with the active one, or no workspace at all.
    Workspaces { current: Option<u32>, all: Vec<u32> },
}

/// What the status item is asked to show, as a value.
#[verifier::ext_equal]
pub enum ContentView {
    Text(Seq<char>),
    Workspaces { current: Option<u32>, all: Seq<u32> },
}

impl View for MenuBarContent {
    type V = ContentView;

    open spec fn view(&self) -> ContentView {
        match self {
            MenuBarContent::Text(label) => ContentView::Text(label@),
            MenuBarContent::Workspaces { current, all } => ContentView::Workspaces {
                current: *current,
                all: all@,
            },
        }
    }
}

/// A content or its absence, as a value.
pub open spec fn optional_view(content: Option<MenuBarContent>) -> Option<ContentView> {
    match content {
        None => None,
        Some(content) => Some(content@),
    }
}

/// What is to be shown of the workspaces: all of them with the active one
/// where the settings ask for it, else nothing.
pub open spec fn workspaces_content(config: Config, virtual_index: u32, all: Seq<u32>) -> ContentView {
    if config.workspace_menu_status {
        ContentView::Workspaces { current: Some(virtual_index), all }
    } else {
        ContentView::Workspaces { current: None, all: Seq::empty() }
    }
}

fn same_indices(a: &Vec<u32>, b: &Vec<u32>) -> (same: bool)
    ensures
        same == (a@ == b@),
{
    let same = *a == *b;
    assert(same ==> a@ =~= b@);
    same
}

impl MenuBarContent {
    /// Whether both ask for the same to be shown.
    pub fn same_as(&self, other: &MenuBarContent) -> (same: bool)
        ensures
            same == (self@ == other@),
            match (*self, *other) {
                (MenuBarContent::Text(a), MenuBarContent::Text(b)) => same == (a@ == b@),
                (
                    MenuBarContent::Workspaces { current: current_a, all: all_a },
                    MenuBarContent::Workspaces { current: current_b, all: all_b },
                ) => same == (current_a == current_b && all_a@ == all_b@),
                _ => !same,
            },
    {
        match (self, other) {
            (MenuBarContent::Text(a), MenuBarContent::Text(b)) => *a == *b,
            (
                MenuBarContent::Workspaces { current: current_a, all: all_a },
                MenuBarContent::Workspaces { current: current_b, all: all_b },
            ) => {
                let same_current = match (current_a, current_b) {
                    (None, None) => true,
                    (Some(a), Some(b)) => *a == *b,
                    _ => false,
                };
                same_current && same_indices(all_a, all_b)
            },
            _ => false,
        }
    }
}

/// One of the groups of views that the content is laid out from.
pub enum ContentPart {
    Descriptor(Vec<DescriptorPart>),
    Indicator(Vec<IndicatorField>),
}

/// One of the groups of views, as a value.
#[verifier::ext_equal]
pub enum ContentPartView {
    Descriptor(Seq<DescriptorPartView>),
    Indicator(Seq<FieldView>),
}

impl View for ContentPart {
    type V = ContentPartView;

    open spec fn view(&self) -> ContentPartView {
        match self {
            ContentPart::Descriptor(parts) => ContentPartView::Descriptor(
                crate::descriptor::parts_view(parts@),
            ),
            ContentPart::Indicator(fields) => ContentPartView::Indicator(
                crate::indicator::fields_view(fields@),
            ),
        }
    }
}

/// A list of groups, as values.
pub open spec fn layout_view(parts: Seq<ContentPart>) -> Seq<ContentPartView> {
    parts.map_values(|part: ContentPart| part@)
}

/// The descriptor as a group, or no group where it has no parts.
pub open spec fn descriptor_group(config: Config, symbol_loaded: bool) -> Seq<ContentPartView> {
    let parts = crate::descriptor::descriptor_parts(config, symbol_loaded);
    if parts.len() > 0 {
        seq![ContentPartView::Descriptor(parts)]
    } else {
        Seq::empty()
    }
}

/// The indicator as a group, or no group where no workspace is shown.
pub open spec fn indicator_group(
    config: Config,
    current: Option<u32>,
    all: Seq<u32>,
) -> Seq<ContentPartView> {
    match current {
        Some(current) => seq![
            ContentPartView::Indicator(crate::indicator::indicator_fields(config, current, all)),
        ],
        None => Seq::empty(),
    }
}

/// The groups that show the workspaces, from left to right.
pub open spec fn layout(
    config: Config,
    current: Option<u32>,
    all: Seq<u32>,
    symbol_loaded: bool,
) -> Seq<ContentPartView> {
    let descriptor = descriptor_group(config, symbol_loaded);
    let indicator = indicator_group(config, current, all);
    match config.menubar_orientation {
        MenubarOrientation::Default => descriptor + indicator,
        MenubarOrientation::Flipped => indicator + descriptor,
    }
}

/// The groups of views that show the workspaces, from left to right.
/// `symbol_loaded` tells whether the system knows the descriptor's symbol.
pub fn arrange_workspaces(
    config: &Config,
    current: Option<u32>,
    all: &[u32],
    symbol_loaded: bool,
) -> (parts: Vec<ContentPart>)
    requires
        crate::indicator::all_labels_fit(*config, current, all@),
    ensures
        layout_view(parts@) == layout(*config, current, all@, symbol_loaded),
        ({
            let style = config.menubar_descriptor_style;
            let described = style == DescriptorStyle::Text || style == DescriptorStyle::Both || (
            style == DescriptorStyle::Symbol && symbol_loaded);
            let flipped = config.menubar_orientation == MenubarOrientation::Flipped;
            &&& described && current is Some ==> parts@.len() == 2
            &&& described != (current is Some) ==> parts@.len() == 1
            &&& !described && current is None ==> parts@.len() == 0
            &&& current is Some ==> match parts@[if flipped {
                0
            } else {
                parts@.len() - 1
            }] {
                ContentPart::Indicator(fields) => {
                    let wanted = crate::indicator::indicator_fields(*config, current->0, all@);
                    &&& fields@.len() == wanted.len()
                    &&& forall|k: int|
                        0 <= k < fields@.len() ==> (#[trigger] fields@[k]).label@
                            == wanted[k].label && fields@[k].bold == wanted[k].bold
                },
                ContentPart::Descriptor(_) => false,
            }
            &&& described ==> match parts@[if flipped {
                parts@.len() - 1
            } else {
                0
            }] {
                ContentPart::Descriptor(shown) => {
                    &&& shown@.len() == if style == DescriptorStyle::Both && symbol_loaded {
                        2nat
                    } else {
                        1nat
                    }
                    &&& style != DescriptorStyle::Text && symbol_loaded ==> (shown@[0] matches DescriptorPart::Symbol(
                        name,
                    ) && name@ == config.menubar_descriptor_symbol@)
                    &&& style != DescriptorStyle::Symbol ==> (shown@.last() matches DescriptorPart::Text(
                        text,
                    ) && text@ == config.menubar_descriptor_text@)
                },
                ContentPart::Indicator(_) => false,
            }
        }),
{
    let descriptor = build_descriptor(config, symbol_loaded);
    let indicator = build_indicator(config, current, all);
    let mut parts: Vec<ContentPart> = Vec::new();
    match config.menubar_orientation {
        MenubarOrientation::Default => {
            if let Some(descriptor) = descriptor {
                parts.push(ContentPart::Descriptor(descriptor));
            }
            if let Some(indicator) = indicator {
                parts.push(ContentPart::Indicator(indicator));
            }
        },
        MenubarOrientation::Flipped => {
            if let Some(indicator) = indicator {
                parts.push(ContentPart::Indicator(indicator));
            }
            if let Some(descriptor) = descriptor {
                parts.push(ContentPart::Descriptor(descriptor));
            }
        },
    }
    assert(layout_view(parts@) =~= layout(*config, current, all@, symbol_loaded));
    parts
}

/// Flipping the orientation shows the same groups in reverse.
pub proof fn flipping_reverses_the_groups(
    config: Config,
    flipped: Config,
    current: Option<u32>,
    all: Seq<u32>,
    symbol_loaded: bool,
)
    requires
        config.menubar_orientation == MenubarOrientation::Default,
        flipped == (Config { menubar_orientation: MenubarOrientation::Flipped, ..config }),
    ensures
        layout(flipped, current, all, symbol_loaded) == layout(
            config,
            current,
            all,
            symbol_loaded,
        ).reverse(),
{
    if current is Some {
        assert(crate::indicator::indicator_fields(config, current->0, all)
            =~= crate::indicator::indicator_fields(flipped, current->0, all));
    }
    assert(indicator_group(config, current, all) =~= indicator_group(flipped, current, all));
    assert(descriptor_group(config, symbol_loaded) =~= descriptor_group(flipped, symbol_loaded));
    assert(layout(flipped, current, all, symbol_loaded) =~= layout(
        config,
        current,
        all,
        symbol_loaded,
    ).reverse());
}

/// With the workspace status switched off, no indicator is laid out, whatever
/// workspaces there are.
pub proof fn status_off_shows_no_indicator(
    config: Config,
    virtual_index: u32,
    all: Seq<u32>,
    symbol_loaded: bool,
)
    requires
        !config.workspace_menu_status,
    ensures
        workspaces_content(config, virtual_index, all) matches ContentView::Workspaces {
            current,
            all: shown,
        } && layout(config, current, shown, symbol_loaded) == descriptor_group(
            config,
            symbol_loaded,
        ),
{
    assert(layout(config, None, Seq::empty(), symbol_loaded) =~= descriptor_group(
        config,
        symbol_loaded,
    ));
}

/// Whenever there is an active workspace, whatever the number of workspaces,
/// exactly one of the groups is an indicator; it holds the fields for the active
/// workspace among all of them, and is the last group in the default
/// orientation and the first in the flipped one.
pub proof fn indicator_is_laid_out_once(
    config: Config,
    current: u32,
    all: Seq<u32>,
    symbol_loaded: bool,
)
    ensures
        ({
            let groups = layout(config, Some(current), all, symbol_loaded);
            let at = if config.menubar_orientation == MenubarOrientation::Default {
                groups.len() - 1
            } else {
                0
            };
            &&& 1 <= groups.len() <= 2
            &&& groups[at] == ContentPartView::Indicator(
                crate::indicator::indicator_fields(config, current, all),
            )
            &&& forall|i: int|
                0 <= i < groups.len() && i != at ==> #[trigger] groups[i] is Descriptor
        }),
{
}

/// The descriptor is laid out as one group of its own exactly where it has
/// parts, and the same one whether or not there are workspaces to show.
pub proof fn descriptor_is_laid_out_once(
    config: Config,
    current: Option<u32>,
    all: Seq<u32>,
    symbol_loaded: bool,
)
    ensures
        ({
            let parts = crate::descriptor::descriptor_parts(config, symbol_loaded);
            let groups = layout(config, current, all, symbol_loaded);
            let at = if config.menubar_orientation == MenubarOrientation::Default {
                0
            } else {
                groups.len() - 1
            };
            &&& parts.len() > 0 ==> groups.len() > 0 && groups[at] == ContentPartView::Descriptor(
                parts,
            )
            &&& forall|i: int|
                0 <= i < groups.len() && (parts.len() == 0 || i != at) ==> #[trigger] groups[i] is Indicator
            &&& groups.len() == (if parts.len() > 0 {
                1int
            } else {
                0int
            }) + (if current is Some {
                1int
            } else {
                0int
            })
        }),
{
}

/// With the workspace status on, what is shown is the active workspace and all
/// workspaces as they are; with it off, no workspace.
pub proof fn status_decides_what_is_shown(config: Config, virtual_index: u32, all: Seq<u32>)
    ensures
        config.workspace_menu_status ==> workspaces_content(config, virtual_index, all)
            == (ContentView::Workspaces { current: Some(virtual_index), all }),
        !config.workspace_menu_status ==> workspaces_content(config, virtual_index, all)
            == (ContentView::Workspaces { current: None, all: Seq::empty() }),
{
}

} // verus!
