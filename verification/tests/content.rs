use menubar::config::{
    Config, DescriptorStyle, IndicatorFormat, IndicatorStyle, MenubarOrientation,
};
use menubar::content::{arrange_workspaces, ContentPart, MenuBarContent};
use menubar::descriptor::{build_descriptor, wants_symbol, DescriptorPart};
use menubar::placement::{
    backing_scale_source, draws_gradient, install, Placement, ScaleSource,
};

fn config(style: DescriptorStyle, orientation: MenubarOrientation) -> Config {
    Config {
        preset_width_percentages: Vec::new(),
        workspace_menu_status: true,
        menubar_orientation: orientation,
        menubar_indicator_style: IndicatorStyle::Mono,
        menubar_indicator_format: IndicatorFormat::Default,
        menubar_indicator_active_character: '☉',
        menubar_indicator_inactive_character: '○',
        menubar_descriptor_style: style,
        menubar_descriptor_symbol: "square.grid".to_string(),
        menubar_descriptor_text: "Paneru".to_string(),
        menubar_gradient_stops: 2,
    }
}

fn names(parts: Option<Vec<DescriptorPart>>) -> Option<Vec<String>> {
    parts.map(|parts| parts.iter().map(name).collect())
}

fn name(part: &DescriptorPart) -> String {
    match part {
        DescriptorPart::Symbol(name) => format!("symbol {name}"),
        DescriptorPart::Text(text) => format!("text {text}"),
    }
}

fn groups(config: &Config, current: Option<u32>, symbol_loaded: bool) -> Vec<String> {
    arrange_workspaces(config, current, &[0, 1], symbol_loaded)
        .iter()
        .map(|part| match part {
            ContentPart::Descriptor(parts) => {
                format!("descriptor {}", parts.iter().map(name).collect::<Vec<_>>().join(", "))
            }
            ContentPart::Indicator(fields) => format!(
                "indicator {}",
                fields.iter().map(|field| field.label.clone()).collect::<Vec<_>>().join(" ")
            ),
        })
        .collect()
}

#[test]
fn descriptor_shows_what_its_style_asks_for() {
    let default = MenubarOrientation::Default;
    let hidden = config(DescriptorStyle::Hidden, default);
    assert_eq!(names(build_descriptor(&hidden, true)), None);
    assert!(!wants_symbol(&hidden));
    let text = config(DescriptorStyle::Text, default);
    assert_eq!(names(build_descriptor(&text, true)), Some(vec!["text Paneru".to_string()]));
    assert!(!wants_symbol(&text));
    let symbol = config(DescriptorStyle::Symbol, default);
    assert_eq!(
        names(build_descriptor(&symbol, true)),
        Some(vec!["symbol square.grid".to_string()])
    );
    assert!(wants_symbol(&symbol));
    let both = config(DescriptorStyle::Both, default);
    assert_eq!(
        names(build_descriptor(&both, true)),
        Some(vec!["symbol square.grid".to_string(), "text Paneru".to_string()])
    );
    assert!(wants_symbol(&both));
}

#[test]
fn unknown_symbol_is_left_out() {
    let symbol = config(DescriptorStyle::Symbol, MenubarOrientation::Default);
    assert_eq!(names(build_descriptor(&symbol, false)), None);
    let both = config(DescriptorStyle::Both, MenubarOrientation::Default);
    assert_eq!(names(build_descriptor(&both, false)), Some(vec!["text Paneru".to_string()]));
}

#[test]
fn orientation_decides_which_group_comes_first() {
    let default = config(DescriptorStyle::Text, MenubarOrientation::Default);
    assert_eq!(groups(&default, Some(1), true), ["descriptor text Paneru", "indicator 2"]);
    let flipped = config(DescriptorStyle::Text, MenubarOrientation::Flipped);
    assert_eq!(groups(&flipped, Some(1), true), ["indicator 2", "descriptor text Paneru"]);
}

#[test]
fn absent_groups_leave_no_gap() {
    let hidden = config(DescriptorStyle::Hidden, MenubarOrientation::Default);
    assert_eq!(groups(&hidden, Some(0), true), ["indicator 1"]);
    assert!(groups(&hidden, None, true).is_empty());
    let text = config(DescriptorStyle::Text, MenubarOrientation::Flipped);
    assert_eq!(groups(&text, None, true), ["descriptor text Paneru"]);
}

#[test]
fn contents_are_the_same_by_value() {
    let text = |label: &str| MenuBarContent::Text(label.to_string());
    let workspaces = |current, all: &[u32]| MenuBarContent::Workspaces {
        current,
        all: all.to_vec(),
    };
    assert!(text("!").same_as(&text("!")));
    assert!(!text("!").same_as(&text("?")));
    assert!(!text("!").same_as(&workspaces(None, &[])));
    assert!(workspaces(Some(1), &[0, 1]).same_as(&workspaces(Some(1), &[0, 1])));
    assert!(!workspaces(Some(1), &[0, 1]).same_as(&workspaces(Some(0), &[0, 1])));
    assert!(!workspaces(Some(1), &[0, 1]).same_as(&workspaces(Some(1), &[0, 1, 2])));
    assert!(!workspaces(None, &[]).same_as(&workspaces(Some(0), &[])));
}

#[test]
fn views_are_placed_where_there_is_a_button() {
    assert_eq!(install(false, true), (Placement::Unavailable, false));
    assert_eq!(install(false, false), (Placement::Unavailable, false));
    assert_eq!(install(true, false), (Placement::Collapse, true));
    assert_eq!(install(true, true), (Placement::Place, true));
}

#[test]
fn gradients_need_colours_and_an_area() {
    let mut config = config(DescriptorStyle::Text, MenubarOrientation::Default);
    assert!(draws_gradient(&config, true, true));
    assert!(!draws_gradient(&config, false, true));
    assert!(!draws_gradient(&config, true, false));
    config.menubar_gradient_stops = 0;
    assert!(!draws_gradient(&config, true, true));
}

#[test]
fn scale_comes_from_the_window_before_the_screen() {
    assert_eq!(backing_scale_source(Some(true), Some(true)), ScaleSource::Window);
    assert_eq!(backing_scale_source(Some(false), Some(true)), ScaleSource::Unit);
    assert_eq!(backing_scale_source(None, Some(true)), ScaleSource::Screen);
    assert_eq!(backing_scale_source(None, Some(false)), ScaleSource::Unit);
    assert_eq!(backing_scale_source(None, None), ScaleSource::Unit);
}
