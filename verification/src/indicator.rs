//! The workspace indicator: the labels it is made of.

use vstd::prelude::*;

use crate::config::{Config, IndicatorFormat, IndicatorStyle};
use crate::numerals::{decimal_numeral, roman_numeral};

verus! {

/// What a workspace's position reads as, see [`indicator_label`].
pub open spec fn label_text(
    format: IndicatorFormat,
    virtual_index: int,
    is_active: bool,
    active_character: char,
    inactive_character: char,
) -> Seq<char> {
    match format {
        IndicatorFormat::Default => crate::numerals::decimal((virtual_index + 1) as nat),
        IndicatorFormat::Roman => crate::numerals::roman(
            if virtual_index < u32::MAX {
                (virtual_index + 1) as nat
            } else {
                u32::MAX as nat
            },
        ),
        IndicatorFormat::Unicode => seq![
            if is_active {
                active_character
            } else {
                inactive_character
            },
        ],
        IndicatorFormat::Marked => if is_active {
            crate::numerals::decimal((virtual_index + 1) as nat)
        } else {
            seq![inactive_character]
        },
    }
}

/// The one-based number of the workspace exists wherever the label is that
/// number in decimal.
pub open spec fn label_fits(format: IndicatorFormat, virtual_index: int, is_active: bool) -> bool {
    format == IndicatorFormat::Default || (format == IndicatorFormat::Marked && is_active)
        ==> virtual_index < u32::MAX
}

/// The index of the last of `count` workspaces, see [`paged_last_index`].
pub open spec fn last_index(count: int) -> int {
    if count <= 1 {
        0
    } else if count - 1 > u32::MAX {
        u32::MAX as int
    } else {
        count - 1
    }
}

/// The format that an indicator of the given style is written in: a single
/// position says nothing by a mark, so there the marking formats give way to
/// numbers.
pub open spec fn effective_format(style: IndicatorStyle, format: IndicatorFormat) -> IndicatorFormat {
    if style != IndicatorStyle::Multi && (format == IndicatorFormat::Unicode || format
        == IndicatorFormat::Marked) {
        IndicatorFormat::Default
    } else {
        format
    }
}

/// One label of the indicator, as a value.
#[verifier::ext_equal]
pub struct FieldView {
    pub label: Seq<char>,
    pub bold: bool,
}

/// The label for one workspace, bold where it marks the active one by its
/// weight.
pub open spec fn workspace_field(
    config: Config,
    format: IndicatorFormat,
    virtual_index: int,
    is_active: bool,
) -> FieldView {
    FieldView {
        label: label_text(
            format,
            virtual_index,
            is_active,
            config.menubar_indicator_active_character,
            config.menubar_indicator_inactive_character,
        ),
        bold: is_active && format != IndicatorFormat::Unicode,
    }
}

/// The labels of the indicator, from left to right.
pub open spec fn indicator_fields(config: Config, current: u32, all: Seq<u32>) -> Seq<FieldView> {
    let style = config.menubar_indicator_style;
    let format = effective_format(style, config.menubar_indicator_format);
    match style {
        IndicatorStyle::Mono => seq![workspace_field(config, format, current as int, false)],
        IndicatorStyle::Multi => all.map_values(
            |index: u32| workspace_field(config, format, index as int, index == current),
        ),
        IndicatorStyle::Paged => seq![
            workspace_field(config, format, current as int, true),
            FieldView { label: "/"@, bold: false },
            workspace_field(config, format, last_index(all.len() as int), false),
        ],
    }
}

/// Every label of the indicator can be written.
pub open spec fn all_labels_fit(config: Config, current: Option<u32>, all: Seq<u32>) -> bool {
    let style = config.menubar_indicator_style;
    let format = effective_format(style, config.menubar_indicator_format);
    match current {
        None => true,
        Some(current) => match style {
            IndicatorStyle::Mono => label_fits(format, current as int, false),
            IndicatorStyle::Multi => forall|i: int|
                0 <= i < all.len() ==> label_fits(
                    format,
                    (#[trigger] all[i]) as int,
                    all[i] == current,
                ),
            IndicatorStyle::Paged => {
                &&& label_fits(format, current as int, true)
                &&& label_fits(format, last_index(all.len() as int), false)
            },
        },
    }
}

/// One label of the indicator, bold when it stands for the active workspace.
pub struct IndicatorField {
    pub label: String,
    pub bold: bool,
}

impl View for IndicatorField {
    type V = FieldView;

    open spec fn view(&self) -> FieldView {
        FieldView { label: self.label@, bold: self.bold }
    }
}

/// The labels of a list of fields, as values.
pub open spec fn fields_view(fields: Seq<IndicatorField>) -> Seq<FieldView> {
    fields.map_values(|field: IndicatorField| field@)
}

/// The number that a virtual workspace goes by: workspaces are counted from
/// one.
pub fn virtual_workspace_label(virtual_index: u32) -> (label: String)
    requires
        virtual_index < u32::MAX,
    ensures
        label@ == crate::numerals::decimal((virtual_index + 1) as nat),
{
    decimal_numeral(virtual_index + 1)
}

/// The string of one character.
fn single_character(c: char) -> (text: String)
    ensures
        text@ == seq![c],
{
    let mut text = String::new();
    text.push(c);
    assert(text@ =~= seq![c]);
    text
}

/// What a single indicator position reads as.
pub fn indicator_label(
    format: IndicatorFormat,
    virtual_index: u32,
    is_active: bool,
    active_character: char,
    inactive_character: char,
) -> (label: String)
    requires
        label_fits(format, virtual_index as int, is_active),
    ensures
        label@ == label_text(
            format,
            virtual_index as int,
            is_active,
            active_character,
            inactive_character,
        ),
        format == IndicatorFormat::Default ==> label@ == crate::numerals::decimal(
            (virtual_index + 1) as nat,
        ),
        format == IndicatorFormat::Roman && virtual_index < u32::MAX ==> label@
            == crate::numerals::roman((virtual_index + 1) as nat),
        format == IndicatorFormat::Roman && virtual_index == u32::MAX ==> label@
            == crate::numerals::roman(u32::MAX as nat),
        format == IndicatorFormat::Unicode && is_active ==> label@ == seq![active_character],
        format == IndicatorFormat::Unicode && !is_active ==> label@ == seq![inactive_character],
        format == IndicatorFormat::Marked && is_active ==> label@ == crate::numerals::decimal(
            (virtual_index + 1) as nat,
        ),
        format == IndicatorFormat::Marked && !is_active ==> label@ == seq![inactive_character],
{
    match format {
        IndicatorFormat::Default => virtual_workspace_label(virtual_index),
        IndicatorFormat::Roman => roman_numeral(virtual_index.saturating_add(1)),
        IndicatorFormat::Unicode => if is_active {
            single_character(active_character)
        } else {
            single_character(inactive_character)
        },
        IndicatorFormat::Marked => if is_active {
            virtual_workspace_label(virtual_index)
        } else {
            single_character(inactive_character)
        },
    }
}

/// The index the paged indicator's total is formatted from: the workspace
/// count reads as the last workspace's own label, so it goes through the same
/// formatter and comes out Roman when the format asks for it.
pub fn paged_last_index(count: usize) -> (index: u32)
    ensures
        index == last_index(count as int),
        count <= 1 ==> index == 0,
        1 <= count && count - 1 <= u32::MAX ==> index == count - 1,
        count - 1 > u32::MAX ==> index == u32::MAX,
{
    let last: usize = if count > 1 {
        count - 1
    } else {
        0
    };
    if last as u64 > u32::MAX as u64 {
        u32::MAX
    } else {
        last as u32
    }
}

/// The format that an indicator of the given style is written in.
pub fn fallback_format(style: IndicatorStyle, format: IndicatorFormat) -> (chosen: IndicatorFormat)
    ensures
        chosen == effective_format(style, format),
        style == IndicatorStyle::Multi ==> chosen == format,
        format == IndicatorFormat::Default || format == IndicatorFormat::Roman ==> chosen == format,
        style != IndicatorStyle::Multi && (format == IndicatorFormat::Unicode || format
            == IndicatorFormat::Marked) ==> chosen == IndicatorFormat::Default,
{
    match (style, format) {
        (IndicatorStyle::Mono, IndicatorFormat::Unicode) => IndicatorFormat::Default,
        (IndicatorStyle::Mono, IndicatorFormat::Marked) => IndicatorFormat::Default,
        (IndicatorStyle::Paged, IndicatorFormat::Unicode) => IndicatorFormat::Default,
        (IndicatorStyle::Paged, IndicatorFormat::Marked) => IndicatorFormat::Default,
        (_, format) => format,
    }
}

/// The label of one workspace, with the weight it is set in.
pub fn format_indicator(
    config: &Config,
    format: IndicatorFormat,
    virtual_index: u32,
    is_active: bool,
) -> (field: IndicatorField)
    requires
        label_fits(format, virtual_index as int, is_active),
    ensures
        field@ == workspace_field(*config, format, virtual_index as int, is_active),
        field.label@ == label_text(
            format,
            virtual_index as int,
            is_active,
            config.menubar_indicator_active_character,
            config.menubar_indicator_inactive_character,
        ),
        field.bold == (is_active && format != IndicatorFormat::Unicode),
{
    let label = indicator_label(
        format,
        virtual_index,
        is_active,
        config.menubar_indicator_active_character,
        config.menubar_indicator_inactive_character,
    );
    IndicatorField { label, bold: is_active && format != IndicatorFormat::Unicode }
}

/// Whether every label that [`build_indicator`] would write has a number to
/// show: the one-based number of the last representable index does not exist.
#[verifier::loop_isolation(false)]
pub fn labels_fit(config: &Config, current: Option<u32>, all: &[u32]) -> (fit: bool)
    ensures
        fit == all_labels_fit(*config, current, all@),
        (current is Some ==> current->0 < u32::MAX) && (forall|i: int|
            0 <= i < all@.len() ==> #[trigger] all@[i] < u32::MAX) && all@.len() <= u32::MAX ==> fit,
        config.menubar_indicator_format == IndicatorFormat::Roman ==> fit,
        current is None ==> fit,
{
    let current: u32 = match current {
        None => return true,
        Some(current) => current,
    };
    let style = config.menubar_indicator_style;
    match fallback_format(style, config.menubar_indicator_format) {
        IndicatorFormat::Default => match style {
            IndicatorStyle::Mono => current < u32::MAX,
            IndicatorStyle::Multi => {
                let mut i: usize = 0;
                while i < all.len()
                    invariant
                        i <= all.len(),
                        forall|k: int| 0 <= k < i ==> all@[k] < u32::MAX,
                    decreases all.len() - i,
                {
                    if all[i] == u32::MAX {
                        return false;
                    }
                    i = i + 1;
                }
                true
            },
            IndicatorStyle::Paged => current < u32::MAX && paged_last_index(all.len()) < u32::MAX,
        },
        IndicatorFormat::Marked => {
            if current < u32::MAX {
                return true;
            }
            let mut i: usize = 0;
            while i < all.len()
                invariant
                    i <= all.len(),
                    forall|k: int| 0 <= k < i ==> all@[k] != current,
                decreases all.len() - i,
            {
                if all[i] == current {
                    return false;
                }
                i = i + 1;
            }
            true
        },
        IndicatorFormat::Roman => true,
        IndicatorFormat::Unicode => true,
    }
}

/// The labels of the indicator, or nothing where no workspace is to be shown.
pub fn build_indicator(config: &Config, current: Option<u32>, all: &[u32]) -> (fields: Option<
    Vec<IndicatorField>,
>)
    requires
        all_labels_fit(*config, current, all@),
    ensures
        fields is Some <==> current is Some,
        fields is Some ==> fields_view(fields->0@) == indicator_fields(*config, current->0, all@),
        fields is Some ==> fields->0@.len() == indicator_fields(*config, current->0, all@).len(),
        fields is Some ==> forall|k: int|
            0 <= k < fields->0@.len() ==> {
                &&& (#[trigger] fields->0@[k]).label@ == indicator_fields(
                    *config,
                    current->0,
                    all@,
                )[k].label
                &&& fields->0@[k].bold == indicator_fields(*config, current->0, all@)[k].bold
            },
        fields is Some && config.menubar_indicator_style == IndicatorStyle::Mono ==> {
            &&& fields->0@.len() == 1
            &&& fields->0@[0].label@ == if config.menubar_indicator_format
                == IndicatorFormat::Roman {
                crate::numerals::roman(
                    if current->0 < u32::MAX {
                        (current->0 + 1) as nat
                    } else {
                        u32::MAX as nat
                    },
                )
            } else {
                crate::numerals::decimal((current->0 + 1) as nat)
            }
            &&& !fields->0@[0].bold
        },
        fields is Some && config.menubar_indicator_style == IndicatorStyle::Multi ==> {
            &&& fields->0@.len() == all@.len()
            &&& forall|k: int|
                0 <= k < all@.len() ==> {
                    &&& (#[trigger] fields->0@[k]).label@ == label_text(
                        config.menubar_indicator_format,
                        all@[k] as int,
                        all@[k] == current->0,
                        config.menubar_indicator_active_character,
                        config.menubar_indicator_inactive_character,
                    )
                    &&& fields->0@[k].bold == (all@[k] == current->0
                        && config.menubar_indicator_format != IndicatorFormat::Unicode)
                }
        },
        fields is Some && config.menubar_indicator_style == IndicatorStyle::Paged ==> {
            &&& fields->0@.len() == 3
            &&& fields->0@[0].label@ == if config.menubar_indicator_format
                == IndicatorFormat::Roman {
                crate::numerals::roman(
                    if current->0 < u32::MAX {
                        (current->0 + 1) as nat
                    } else {
                        u32::MAX as nat
                    },
                )
            } else {
                crate::numerals::decimal((current->0 + 1) as nat)
            }
            &&& fields->0@[0].bold
            &&& fields->0@[1].label@ == "/"@
            &&& !fields->0@[1].bold
            &&& fields->0@[2].label@ == if config.menubar_indicator_format
                == IndicatorFormat::Roman {
                crate::numerals::roman(
                    if all@.len() == 0 {
                        1
                    } else if all@.len() <= u32::MAX {
                        all@.len()
                    } else {
                        u32::MAX as nat
                    },
                )
            } else {
                crate::numerals::decimal(
                    if all@.len() == 0 {
                        1
                    } else {
                        all@.len()
                    },
                )
            }
            &&& !fields->0@[2].bold
        },
{
    let current: u32 = match current {
        None => return None,
        Some(current) => current,
    };
    let style = config.menubar_indicator_style;
    // Both formats that distinguish the active workspace from the rest say
    // nothing on their own, so a single-item indicator falls back to numbers.
    let format = fallback_format(style, config.menubar_indicator_format);
    let ghost wanted = indicator_fields(*config, current, all@);
    let mut fields: Vec<IndicatorField> = Vec::new();
    match style {
        IndicatorStyle::Mono => {
            fields.push(format_indicator(config, format, current, false));
        },
        IndicatorStyle::Multi => {
            let mut i: usize = 0;
            while i < all.len()
                invariant
                    i <= all.len(),
                    fields.len() == i,
                    wanted.len() == all.len(),
                    style == IndicatorStyle::Multi,
                    forall|k: int|
                        0 <= k < all.len() ==> #[trigger] wanted[k] == workspace_field(
                            *config,
                            format,
                            all@[k] as int,
                            all@[k] == current,
                        ),
                    forall|k: int|
                        0 <= k < all.len() ==> label_fits(
                            format,
                            (#[trigger] all@[k]) as int,
                            all@[k] == current,
                        ),
                    forall|k: int| 0 <= k < i ==> (#[trigger] fields@[k])@ == wanted[k],
                decreases all.len() - i,
            {
                let virtual_index: u32 = all[i];
                fields.push(
                    format_indicator(config, format, virtual_index, virtual_index == current),
                );
                i = i + 1;
            }
        },
        IndicatorStyle::Paged => {
            let last: u32 = paged_last_index(all.len());
            fields.push(format_indicator(config, format, current, true));
            fields.push(IndicatorField { label: "/".to_owned(), bold: false });
            fields.push(format_indicator(config, format, last, false));
        },
    }
    assert(fields_view(fields@) =~= wanted);
    assert forall|k: int| 0 <= k < fields@.len() implies (#[trigger] fields@[k])@ == wanted[k] by {
        assert(fields_view(fields@)[k] == wanted[k]);
    }
    Some(fields)
}

/// The label of a workspace reads as its index counted from one, in decimal
/// and in Roman numerals alike.
pub proof fn labels_are_one_based(
    virtual_index: u32,
    is_active: bool,
    active_character: char,
    inactive_character: char,
)
    requires
        virtual_index < u32::MAX,
    ensures
        crate::numerals::decimal_value(
            label_text(
                IndicatorFormat::Default,
                virtual_index as int,
                is_active,
                active_character,
                inactive_character,
            ),
        ) == virtual_index + 1,
        crate::numerals::roman_value(
            label_text(
                IndicatorFormat::Roman,
                virtual_index as int,
                is_active,
                active_character,
                inactive_character,
            ),
        ) == virtual_index + 1,
{
    crate::numerals::decimal_reads_back((virtual_index + 1) as nat);
    crate::numerals::roman_reads_back((virtual_index + 1) as nat);
}

/// Numbering formats tell any two workspaces apart. The two highest indices
/// share a Roman numeral: the number of the last one is not representable.
pub proof fn numbered_labels_are_distinct(
    format: IndicatorFormat,
    a: u32,
    b: u32,
    is_active: bool,
    active_character: char,
    inactive_character: char,
)
    requires
        format == IndicatorFormat::Default || format == IndicatorFormat::Roman,
        label_fits(format, a as int, is_active),
        label_fits(format, b as int, is_active),
        a != b,
        a < u32::MAX - 1 || b < u32::MAX - 1,
    ensures
        label_text(format, a as int, is_active, active_character, inactive_character)
            != label_text(format, b as int, is_active, active_character, inactive_character),
{
    let label_a = label_text(format, a as int, is_active, active_character, inactive_character);
    let label_b = label_text(format, b as int, is_active, active_character, inactive_character);
    if label_a == label_b {
        if format == IndicatorFormat::Default {
            crate::numerals::decimal_is_injective((a + 1) as nat, (b + 1) as nat);
        } else {
            let number_a: nat = if a < u32::MAX {
                (a + 1) as nat
            } else {
                u32::MAX as nat
            };
            let number_b: nat = if b < u32::MAX {
                (b + 1) as nat
            } else {
                u32::MAX as nat
            };
            crate::numerals::roman_is_injective(number_a, number_b);
        }
    }
}

/// Characters tell the active workspace from the rest and nothing more.
pub proof fn unicode_labels_ignore_the_index(
    a: u32,
    b: u32,
    is_active: bool,
    active_character: char,
    inactive_character: char,
)
    ensures
        label_text(
            IndicatorFormat::Unicode,
            a as int,
            is_active,
            active_character,
            inactive_character,
        ) == label_text(
            IndicatorFormat::Unicode,
            b as int,
            is_active,
            active_character,
            inactive_character,
        ),
{
}

/// The total of a paged indicator reads as the number of workspaces, and as
/// one where there is none.
pub proof fn paged_total_reads_as_the_count(
    count: u32,
    active_character: char,
    inactive_character: char,
)
    ensures
        ({
            let total: nat = if count == 0 {
                1
            } else {
                count as nat
            };
            let last = last_index(count as int);
            &&& label_fits(IndicatorFormat::Default, last, false)
            &&& label_text(
                IndicatorFormat::Default,
                last,
                false,
                active_character,
                inactive_character,
            ) == crate::numerals::decimal(total)
            &&& label_text(IndicatorFormat::Roman, last, false, active_character, inactive_character)
                == crate::numerals::roman(total)
        }),
{
}

/// An indicator with a single position for the active workspace always writes
/// numbers: the marking characters have no part in it.
pub proof fn single_position_indicators_never_mark(
    config: Config,
    other: Config,
    current: u32,
    all: Seq<u32>,
)
    requires
        config.menubar_indicator_style != IndicatorStyle::Multi,
        config.menubar_indicator_style == other.menubar_indicator_style,
        config.menubar_indicator_format == other.menubar_indicator_format,
    ensures
        ({
            let format = effective_format(
                config.menubar_indicator_style,
                config.menubar_indicator_format,
            );
            format == IndicatorFormat::Default || format == IndicatorFormat::Roman
        }),
        indicator_fields(config, current, all) == indicator_fields(other, current, all),
{
    assert(indicator_fields(config, current, all) =~= indicator_fields(other, current, all));
}

/// Where every workspace is listed once, exactly one position is the active
/// workspace's, and it alone can be bold.
pub proof fn one_position_is_active(config: Config, current: u32, all: Seq<u32>) -> (active: int)
    requires
        config.menubar_indicator_style == IndicatorStyle::Multi,
        crate::ordered::ascending(all),
        all.contains(current),
    ensures
        0 <= active < all.len(),
        ({
            let format = config.menubar_indicator_format;
            let fields = indicator_fields(config, current, all);
            &&& fields.len() == all.len()
            &&& all[active] == current
            &&& fields[active] == workspace_field(config, format, current as int, true)
            &&& forall|i: int|
                0 <= i < all.len() && i != active ==> #[trigger] fields[i] == workspace_field(
                    config,
                    format,
                    all[i] as int,
                    false,
                )
            &&& forall|i: int|
                0 <= i < all.len() ==> ((#[trigger] fields[i]).bold <==> i == active && format
                    != IndicatorFormat::Unicode)
        }),
{
    let active = choose|i: int| 0 <= i < all.len() && all[i] == current;
    assert forall|i: int| 0 <= i < all.len() && i != active implies #[trigger] all[i]
        != current by {
        if i < active {
            assert(crate::ordered::Ordinal::rank(all[i]) < crate::ordered::Ordinal::rank(
                all[active],
            ));
        } else {
            assert(crate::ordered::Ordinal::rank(all[active]) < crate::ordered::Ordinal::rank(
                all[i],
            ));
        }
    }
    active
}

/// A label can be written wherever the workspace's one-based number is
/// representable, and also where the label holds no decimal number.
pub proof fn labels_fit_where_the_number_exists(
    format: IndicatorFormat,
    virtual_index: u32,
    is_active: bool,
)
    ensures
        virtual_index < u32::MAX ==> label_fits(format, virtual_index as int, is_active),
        format == IndicatorFormat::Roman || format == IndicatorFormat::Unicode ==> label_fits(
            format,
            virtual_index as int,
            is_active,
        ),
        !is_active && format == IndicatorFormat::Marked ==> label_fits(
            format,
            virtual_index as int,
            is_active,
        ),
{
}

/// Every indicator can be written, whatever its style and format, as long as
/// the numbers of its workspaces and their count are representable.
pub proof fn indicators_fit_where_the_numbers_exist(
    config: Config,
    current: Option<u32>,
    all: Seq<u32>,
)
    requires
        current is Some ==> current->0 < u32::MAX,
        forall|i: int| 0 <= i < all.len() ==> #[trigger] all[i] < u32::MAX,
        all.len() <= u32::MAX,
    ensures
        all_labels_fit(config, current, all),
{
}

/// In the marked format the active workspace reads as its number counted from
/// one, in plain decimal, and every other one as the inactive character alone.
pub proof fn marked_labels_number_the_active_workspace(
    virtual_index: u32,
    active_character: char,
    inactive_character: char,
)
    ensures
        virtual_index < u32::MAX ==> {
            let label = label_text(
                IndicatorFormat::Marked,
                virtual_index as int,
                true,
                active_character,
                inactive_character,
            );
            &&& crate::numerals::decimal_value(label) == virtual_index + 1
            &&& label.len() > 0
            &&& label[0] != '0'
            &&& forall|i: int| 0 <= i < label.len() ==> '0' <= #[trigger] label[i] <= '9'
        },
        label_text(
            IndicatorFormat::Marked,
            virtual_index as int,
            false,
            active_character,
            inactive_character,
        ) == seq![inactive_character],
{
    crate::numerals::decimal_reads_back((virtual_index + 1) as nat);
    crate::numerals::decimal_is_plain((virtual_index + 1) as nat);
}

/// In the format of characters, the active workspace reads as the active
/// character alone and every other one as the inactive character alone.
pub proof fn unicode_labels_are_the_characters(
    virtual_index: u32,
    active_character: char,
    inactive_character: char,
)
    ensures
        label_text(
            IndicatorFormat::Unicode,
            virtual_index as int,
            true,
            active_character,
            inactive_character,
        ) == seq![active_character],
        label_text(
            IndicatorFormat::Unicode,
            virtual_index as int,
            false,
            active_character,
            inactive_character,
        ) == seq![inactive_character],
{
}

/// What a workspace's number reads as in the format of the settings: its value
/// as a Roman numeral where the format is Roman, else in decimal.
pub open spec fn reads_as(label: Seq<char>, format: IndicatorFormat, number: int) -> bool {
    if format == IndicatorFormat::Roman {
        crate::numerals::roman_value(label) == number
    } else {
        crate::numerals::decimal_value(label) == number
    }
}

/// A paged indicator has three fields in every format: the active workspace's
/// number in bold, a plain slash, and the plain number of workspaces, which
/// reads as one where there is none.
pub proof fn paged_indicators_read_current_of_count(config: Config, current: u32, all: Seq<u32>)
    requires
        config.menubar_indicator_style == IndicatorStyle::Paged,
        current < u32::MAX,
        all.len() <= u32::MAX,
    ensures
        ({
            let format = config.menubar_indicator_format;
            let fields = indicator_fields(config, current, all);
            let count: int = if all.len() == 0 {
                1
            } else {
                all.len() as int
            };
            &&& fields.len() == 3
            &&& fields[0].bold
            &&& reads_as(fields[0].label, format, current + 1)
            &&& fields[0].label == if format == IndicatorFormat::Roman {
                crate::numerals::roman((current + 1) as nat)
            } else {
                crate::numerals::decimal((current + 1) as nat)
            }
            &&& !fields[1].bold
            &&& fields[1].label == seq!['/']
            &&& !fields[2].bold
            &&& reads_as(fields[2].label, format, count)
            &&& fields[2].label == if format == IndicatorFormat::Roman {
                crate::numerals::roman(count as nat)
            } else {
                crate::numerals::decimal(count as nat)
            }
        }),
{
    let count: nat = if all.len() == 0 {
        1
    } else {
        all.len()
    };
    crate::numerals::decimal_reads_back((current + 1) as nat);
    crate::numerals::roman_reads_back((current + 1) as nat);
    crate::numerals::decimal_reads_back(count);
    crate::numerals::roman_reads_back(count);
    reveal_strlit("/");
    assert("/"@ =~= seq!['/']);
}

/// A mono indicator is one plain field that reads as the active workspace's
/// number, whatever other workspaces there are.
pub proof fn mono_indicators_read_current(config: Config, current: u32, all: Seq<u32>)
    requires
        config.menubar_indicator_style == IndicatorStyle::Mono,
        current < u32::MAX,
    ensures
        ({
            let format = config.menubar_indicator_format;
            let fields = indicator_fields(config, current, all);
            &&& fields.len() == 1
            &&& !fields[0].bold
            &&& reads_as(fields[0].label, format, current + 1)
            &&& fields[0].label == if format == IndicatorFormat::Roman {
                crate::numerals::roman((current + 1) as nat)
            } else {
                crate::numerals::decimal((current + 1) as nat)
            }
        }),
{
    crate::numerals::decimal_reads_back((current + 1) as nat);
    crate::numerals::roman_reads_back((current + 1) as nat);
}

/// A multi indicator has one field for each workspace, in their order. In a
/// numbering format each reads as its workspace's number; in the format of
/// characters as the character for active or inactive; in the marked format
/// the active one reads as its number and the rest as the inactive character.
/// The active workspace's field is bold unless its character tells it apart.
pub proof fn multi_indicators_list_every_workspace(
    config: Config,
    current: u32,
    all: Seq<u32>,
    i: int,
)
    requires
        config.menubar_indicator_style == IndicatorStyle::Multi,
        0 <= i < all.len(),
        all[i] < u32::MAX,
    ensures
        ({
            let format = config.menubar_indicator_format;
            let fields = indicator_fields(config, current, all);
            let active = all[i] == current;
            &&& fields.len() == all.len()
            &&& fields[i].bold == (active && format != IndicatorFormat::Unicode)
            &&& format == IndicatorFormat::Default ==> fields[i].label == crate::numerals::decimal(
                (all[i] + 1) as nat,
            ) && reads_as(fields[i].label, format, all[i] + 1)
            &&& format == IndicatorFormat::Roman ==> fields[i].label == crate::numerals::roman(
                (all[i] + 1) as nat,
            ) && reads_as(fields[i].label, format, all[i] + 1)
            &&& format == IndicatorFormat::Unicode && active ==> fields[i].label
                == seq![config.menubar_indicator_active_character]
            &&& format == IndicatorFormat::Unicode && !active ==> fields[i].label
                == seq![config.menubar_indicator_inactive_character]
            &&& format == IndicatorFormat::Marked && active ==> fields[i].label
                == crate::numerals::decimal((all[i] + 1) as nat) && reads_as(
                fields[i].label,
                format,
                all[i] + 1,
            )
            &&& format == IndicatorFormat::Marked && !active ==> fields[i].label
                == seq![config.menubar_indicator_inactive_character]
        }),
{
    crate::numerals::decimal_reads_back((all[i] + 1) as nat);
    crate::numerals::roman_reads_back((all[i] + 1) as nat);
}

} // verus!
