//! The descriptor beside the workspace indicator.

use vstd::prelude::*;

use crate::config::{Config, DescriptorStyle};

verus! {

/// One part of the descriptor.
pub enum DescriptorPart {
    /// The system symbol of this name.
    Symbol(String),
    /// This text.
    Text(String),
}

/// One part of the descriptor, as a value.
#[verifier::ext_equal]
pub enum DescriptorPartView {
    Symbol(Seq<char>),
    Text(Seq<char>),
}

impl View for DescriptorPart {
    type V = DescriptorPartView;

    open spec fn view(&self) -> DescriptorPartView {
        match self {
            DescriptorPart::Symbol(name) => DescriptorPartView::Symbol(name@),
            DescriptorPart::Text(text) => DescriptorPartView::Text(text@),
        }
    }
}

/// A list of descriptor parts, as values.
pub open spec fn parts_view(parts: Seq<DescriptorPart>) -> Seq<DescriptorPartView> {
    parts.map_values(|part: DescriptorPart| part@)
}

/// Whether a descriptor of this style has a symbol.
pub open spec fn has_symbol(style: DescriptorStyle) -> bool {
    style == DescriptorStyle::Symbol || style == DescriptorStyle::Both
}

/// Whether a descriptor of this style has a text.
pub open spec fn has_text(style: DescriptorStyle) -> bool {
    style == DescriptorStyle::Text || style == DescriptorStyle::Both
}

/// The parts of the descriptor, from left to right: the symbol, where the
/// style has one and the system knows it, then the text.
pub open spec fn descriptor_parts(config: Config, symbol_loaded: bool) -> Seq<DescriptorPartView> {
    let style = config.menubar_descriptor_style;
    let symbol = if has_symbol(style) && symbol_loaded {
        seq![DescriptorPartView::Symbol(config.menubar_descriptor_symbol@)]
    } else {
        Seq::empty()
    };
    let text = if has_text(style) {
        seq![DescriptorPartView::Text(config.menubar_descriptor_text@)]
    } else {
        Seq::empty()
    };
    symbol + text
}

/// Whether the descriptor's symbol has to be looked up before
/// [`build_descriptor`].
pub fn wants_symbol(config: &Config) -> (wanted: bool)
    ensures
        wanted == has_symbol(config.menubar_descriptor_style),
        wanted == (config.menubar_descriptor_style == DescriptorStyle::Symbol
            || config.menubar_descriptor_style == DescriptorStyle::Both),
{
    match config.menubar_descriptor_style {
        DescriptorStyle::Symbol => true,
        DescriptorStyle::Both => true,
        DescriptorStyle::Hidden => false,
        DescriptorStyle::Text => false,
    }
}

/// The descriptor's symbol, or nothing where the system does not know it.
pub fn build_descriptor_symbol(config: &Config, symbol_loaded: bool) -> (part: Option<
    DescriptorPart,
>)
    ensures
        part is Some <==> symbol_loaded,
        part is Some ==> part->0@ == DescriptorPartView::Symbol(config.menubar_descriptor_symbol@),
        part matches Some(part) ==> part matches DescriptorPart::Symbol(name) && name@
            == config.menubar_descriptor_symbol@,
{
    if symbol_loaded {
        Some(DescriptorPart::Symbol(config.menubar_descriptor_symbol.clone()))
    } else {
        None
    }
}

/// The descriptor's text.
pub fn build_descriptor_text(config: &Config) -> (part: DescriptorPart)
    ensures
        part@ == DescriptorPartView::Text(config.menubar_descriptor_text@),
        part matches DescriptorPart::Text(text) && text@ == config.menubar_descriptor_text@,
{
    DescriptorPart::Text(config.menubar_descriptor_text.clone())
}

/// The parts of the descriptor, or nothing where none is left to show.
/// `symbol_loaded` tells whether the system knows the configured symbol.
pub fn build_descriptor(config: &Config, symbol_loaded: bool) -> (parts: Option<
    Vec<DescriptorPart>,
>)
    ensures
        parts is Some <==> descriptor_parts(*config, symbol_loaded).len() > 0,
        parts is Some ==> parts_view(parts->0@) == descriptor_parts(*config, symbol_loaded),
        match config.menubar_descriptor_style {
            DescriptorStyle::Hidden => parts is None,
            DescriptorStyle::Symbol => if symbol_loaded {
                &&& parts is Some
                &&& parts->0@.len() == 1
                &&& parts->0@[0] matches DescriptorPart::Symbol(name) && name@
                    == config.menubar_descriptor_symbol@
            } else {
                parts is None
            },
            DescriptorStyle::Text => {
                &&& parts is Some
                &&& parts->0@.len() == 1
                &&& parts->0@[0] matches DescriptorPart::Text(text) && text@
                    == config.menubar_descriptor_text@
            },
            DescriptorStyle::Both => if symbol_loaded {
                &&& parts is Some
                &&& parts->0@.len() == 2
                &&& parts->0@[0] matches DescriptorPart::Symbol(name) && name@
                    == config.menubar_descriptor_symbol@
                &&& parts->0@[1] matches DescriptorPart::Text(text) && text@
                    == config.menubar_descriptor_text@
            } else {
                &&& parts is Some
                &&& parts->0@.len() == 1
                &&& parts->0@[0] matches DescriptorPart::Text(text) && text@
                    == config.menubar_descriptor_text@
            },
        },
{
    let style = config.menubar_descriptor_style;
    if style == DescriptorStyle::Hidden {
        return None;
    }
    let mut parts: Vec<DescriptorPart> = Vec::new();
    if wants_symbol(config) {
        if let Some(symbol) = build_descriptor_symbol(config, symbol_loaded) {
            parts.push(symbol);
        }
    }
    if style == DescriptorStyle::Text || style == DescriptorStyle::Both {
        parts.push(build_descriptor_text(config));
    }
    assert(parts_view(parts@) =~= descriptor_parts(*config, symbol_loaded));
    if parts.len() == 0 {
        None
    } else {
        Some(parts)
    }
}

/// A descriptor shows its text exactly where the style has one, as its last
/// part, and its symbol exactly where the style has one that the system knows,
/// as its first; it has no other parts.
pub proof fn descriptors_show_what_their_style_asks_for(config: Config, symbol_loaded: bool)
    ensures
        ({
            let style = config.menubar_descriptor_style;
            let parts = descriptor_parts(config, symbol_loaded);
            let with_symbol = (style == DescriptorStyle::Symbol || style == DescriptorStyle::Both)
                && symbol_loaded;
            let with_text = style == DescriptorStyle::Text || style == DescriptorStyle::Both;
            &&& with_symbol && with_text ==> parts.len() == 2
            &&& with_symbol != with_text ==> parts.len() == 1
            &&& !with_symbol && !with_text ==> parts.len() == 0
            &&& with_symbol ==> parts[0] == DescriptorPartView::Symbol(
                config.menubar_descriptor_symbol@,
            )
            &&& with_text ==> parts.last() == DescriptorPartView::Text(
                config.menubar_descriptor_text@,
            )
        }),
{
}

/// Where the system knows the symbol, showing both is showing what the symbol
/// style shows and then what the text style shows.
pub proof fn both_is_symbol_and_text(
    both: Config,
    symbol: Config,
    text: Config,
    symbol_loaded: bool,
)
    requires
        both.menubar_descriptor_style == DescriptorStyle::Both,
        symbol == (Config { menubar_descriptor_style: DescriptorStyle::Symbol, ..both }),
        text == (Config { menubar_descriptor_style: DescriptorStyle::Text, ..both }),
    ensures
        descriptor_parts(both, symbol_loaded) == descriptor_parts(symbol, symbol_loaded)
            + descriptor_parts(text, symbol_loaded),
{
    assert(descriptor_parts(both, symbol_loaded) =~= descriptor_parts(symbol, symbol_loaded)
        + descriptor_parts(text, symbol_loaded));
}

} // verus!
