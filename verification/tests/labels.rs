use menubar::config::{
    Config, DescriptorStyle, IndicatorFormat, IndicatorStyle, MenubarOrientation,
};
use menubar::indicator::{
    build_indicator, fallback_format, format_indicator, indicator_label, labels_fit,
    paged_last_index, virtual_workspace_label,
};
use menubar::numerals::{decimal_numeral, roman_numeral, signed_decimal_numeral};

fn config(style: IndicatorStyle, format: IndicatorFormat) -> Config {
    Config {
        preset_width_percentages: Vec::new(),
        workspace_menu_status: true,
        menubar_orientation: MenubarOrientation::Default,
        menubar_indicator_style: style,
        menubar_indicator_format: format,
        menubar_indicator_active_character: '☉',
        menubar_indicator_inactive_character: '○',
        menubar_descriptor_style: DescriptorStyle::Hidden,
        menubar_descriptor_symbol: String::new(),
        menubar_descriptor_text: String::new(),
        menubar_gradient_stops: 0,
    }
}

fn fields(config: &Config, current: Option<u32>, all: &[u32]) -> Option<Vec<(String, bool)>> {
    build_indicator(config, current, all)
        .map(|fields| fields.into_iter().map(|field| (field.label, field.bold)).collect())
}

fn field(label: &str, bold: bool) -> (String, bool) {
    (label.to_string(), bold)
}

#[test]
fn virtual_workspace_label_is_one_based() {
    assert_eq!(virtual_workspace_label(0), "1");
    assert_eq!(virtual_workspace_label(4), "5");
}

#[test]
fn paged_total_reads_as_the_last_workspace_label() {
    assert_eq!(
        indicator_label(
            IndicatorFormat::Default,
            paged_last_index(4),
            false,
            '☉',
            '○'
        ),
        "4"
    );
    assert_eq!(
        indicator_label(IndicatorFormat::Roman, paged_last_index(4), false, '☉', '○'),
        "IV"
    );
    // A lone workspace still reads as "1 / 1" rather than underflowing.
    assert_eq!(
        indicator_label(
            IndicatorFormat::Default,
            paged_last_index(1),
            false,
            '☉',
            '○'
        ),
        "1"
    );
    assert_eq!(
        indicator_label(
            IndicatorFormat::Default,
            paged_last_index(0),
            false,
            '☉',
            '○'
        ),
        "1"
    );
}

#[test]
fn marked_labels_number_the_active_workspace_among_marks() {
    let marks: Vec<String> = [0, 1, 2, 3]
        .into_iter()
        .map(|index| indicator_label(IndicatorFormat::Marked, index, index == 1, '☉', '·'))
        .collect();
    assert_eq!(marks, ["·", "2", "·", "·"]);
}

#[test]
fn unicode_labels_only_distinguish_active_from_inactive() {
    assert_eq!(
        indicator_label(IndicatorFormat::Unicode, 2, true, '☉', '○'),
        "☉"
    );
    assert_eq!(
        indicator_label(IndicatorFormat::Unicode, 2, false, '☉', '○'),
        "○"
    );
}

#[test]
fn roman_numerals_terminate_and_subtract_correctly() {
    assert_eq!(roman_numeral(0), "");
    assert_eq!(roman_numeral(1), "I");
    assert_eq!(roman_numeral(3), "III");
    assert_eq!(roman_numeral(4), "IV");
    assert_eq!(roman_numeral(5), "V");
    assert_eq!(roman_numeral(9), "IX");
    assert_eq!(roman_numeral(10), "X");
    assert_eq!(roman_numeral(40), "XL");
    assert_eq!(roman_numeral(49), "XLIX");
    assert_eq!(roman_numeral(50), "L");
    assert_eq!(roman_numeral(89), "LXXXIX");
}

#[test]
fn large_roman_numerals_repeat_the_largest_symbol() {
    assert_eq!(roman_numeral(100), "LL");
    assert_eq!(roman_numeral(144), "LLXLIV");
    assert_eq!(roman_numeral(1000), "L".repeat(20));
}

#[test]
fn roman_numerals_of_different_numbers_differ() {
    let numerals: Vec<String> = (0..300).map(roman_numeral).collect();
    for (i, a) in numerals.iter().enumerate() {
        for b in &numerals[i + 1..] {
            assert_ne!(a, b);
        }
    }
}

#[test]
fn decimal_numerals_match_the_standard_formatting() {
    for value in [0, 1, 9, 10, 11, 99, 100, 1234567, u32::MAX] {
        assert_eq!(decimal_numeral(value), value.to_string());
    }
    for value in [i32::MIN, -100, -1, 0, 7, 50, i32::MAX] {
        assert_eq!(signed_decimal_numeral(value), value.to_string());
    }
}

#[test]
fn labels_at_the_end_of_the_range() {
    assert_eq!(virtual_workspace_label(u32::MAX - 1), "4294967295");
    assert_eq!(
        indicator_label(IndicatorFormat::Marked, u32::MAX, false, '☉', '·'),
        "·"
    );
    assert_eq!(
        indicator_label(IndicatorFormat::Unicode, u32::MAX, true, '☉', '·'),
        "☉"
    );
    assert_eq!(paged_last_index(usize::MAX), u32::MAX);
    assert_eq!(paged_last_index(1 << 32), u32::MAX);
    assert_eq!(paged_last_index(u32::MAX as usize), u32::MAX - 1);
}

#[test]
fn single_position_formats_fall_back_to_numbers() {
    for style in [IndicatorStyle::Mono, IndicatorStyle::Paged] {
        assert_eq!(fallback_format(style, IndicatorFormat::Unicode), IndicatorFormat::Default);
        assert_eq!(fallback_format(style, IndicatorFormat::Marked), IndicatorFormat::Default);
        assert_eq!(fallback_format(style, IndicatorFormat::Roman), IndicatorFormat::Roman);
        assert_eq!(fallback_format(style, IndicatorFormat::Default), IndicatorFormat::Default);
    }
    for format in [
        IndicatorFormat::Default,
        IndicatorFormat::Roman,
        IndicatorFormat::Unicode,
        IndicatorFormat::Marked,
    ] {
        assert_eq!(fallback_format(IndicatorStyle::Multi, format), format);
    }
}

#[test]
fn mono_indicator_is_the_plain_number() {
    let config = config(IndicatorStyle::Mono, IndicatorFormat::Unicode);
    assert_eq!(fields(&config, Some(2), &[0, 1, 2]), Some(vec![field("3", false)]));
}

#[test]
fn multi_indicator_lists_every_workspace() {
    let numbers = config(IndicatorStyle::Multi, IndicatorFormat::Default);
    assert_eq!(
        fields(&numbers, Some(1), &[0, 1, 4]),
        Some(vec![field("1", false), field("2", true), field("5", false)])
    );
    let characters = config(IndicatorStyle::Multi, IndicatorFormat::Unicode);
    assert_eq!(
        fields(&characters, Some(1), &[0, 1, 4]),
        Some(vec![field("○", false), field("☉", false), field("○", false)])
    );
    let marks = config(IndicatorStyle::Multi, IndicatorFormat::Marked);
    assert_eq!(
        fields(&marks, Some(4), &[0, 1, 4]),
        Some(vec![field("○", false), field("○", false), field("5", true)])
    );
    assert_eq!(fields(&numbers, Some(1), &[]), Some(vec![]));
}

#[test]
fn paged_indicator_counts_the_workspaces() {
    let config = config(IndicatorStyle::Paged, IndicatorFormat::Roman);
    assert_eq!(
        fields(&config, Some(1), &[0, 1, 4, 7]),
        Some(vec![field("II", true), field("/", false), field("IV", false)])
    );
}

#[test]
fn lone_paged_workspace_reads_one_of_one() {
    let config = config(IndicatorStyle::Paged, IndicatorFormat::Marked);
    assert_eq!(
        fields(&config, Some(0), &[0]),
        Some(vec![field("1", true), field("/", false), field("1", false)])
    );
}

#[test]
fn no_current_workspace_means_no_indicator() {
    let config = config(IndicatorStyle::Multi, IndicatorFormat::Default);
    assert_eq!(fields(&config, None, &[0, 1]), None);
}

#[test]
fn only_the_weight_of_numbers_marks_the_active_workspace() {
    let config = config(IndicatorStyle::Multi, IndicatorFormat::Unicode);
    assert!(format_indicator(&config, IndicatorFormat::Default, 0, true).bold);
    assert!(!format_indicator(&config, IndicatorFormat::Default, 0, false).bold);
    assert!(!format_indicator(&config, IndicatorFormat::Unicode, 0, true).bold);
}

#[test]
fn labels_fit_unless_the_number_is_not_representable() {
    let last = u32::MAX;
    let default_mono = config(IndicatorStyle::Mono, IndicatorFormat::Unicode);
    assert!(!labels_fit(&default_mono, Some(last), &[]));
    assert!(labels_fit(&default_mono, Some(last - 1), &[]));
    assert!(labels_fit(&default_mono, None, &[last]));
    let roman = config(IndicatorStyle::Paged, IndicatorFormat::Roman);
    assert!(labels_fit(&roman, Some(last), &[last]));
    let marked = config(IndicatorStyle::Multi, IndicatorFormat::Marked);
    assert!(labels_fit(&marked, Some(0), &[0, last]));
    assert!(labels_fit(&marked, Some(last), &[0]));
    assert!(!labels_fit(&marked, Some(last), &[0, last]));
    let numbers = config(IndicatorStyle::Multi, IndicatorFormat::Default);
    assert!(!labels_fit(&numbers, Some(0), &[0, last]));
    let paged = config(IndicatorStyle::Paged, IndicatorFormat::Default);
    assert!(labels_fit(&paged, Some(0), &[last]));
    assert!(!labels_fit(&paged, Some(last), &[0]));
}
