//! How content gets into the status item.

use vstd::prelude::*;

use crate::config::Config;

verus! {

/// What to do with a view that the status item is to show.
#[derive(Clone, Copy, Debug, PartialEq, Eq, Structural)]
pub enum Placement {
    /// Nothing: the status item has no button to put the view into.
    Unavailable,
    /// Empty the button and give the status item no length.
    Collapse,
    /// Empty the button, put the view into it, padded on both sides, and size
    /// the status item to it.
    Place,
}

/// What to do with a view, and whether that shows it.
///
/// `has_button` tells whether the status item has a button, `has_width`
/// whether the view is wider than nothing.
pub fn install(has_button: bool, has_width: bool) -> (done: (Placement, bool))
    ensures
        done.0 == Placement::Unavailable <==> !has_button,
        done.0 == Placement::Collapse <==> has_button && !has_width,
        done.0 == Placement::Place <==> has_button && has_width,
        done.1 == has_button,
{
    if !has_button {
        return (Placement::Unavailable, false);
    }
    if !has_width {
        return (Placement::Collapse, true);
    }
    (Placement::Place, true)
}

/// Whether the gradient is drawn over content of this extent: there are colours
/// to draw it in, and the content covers an area.
pub fn draws_gradient(config: &Config, has_width: bool, has_height: bool) -> (drawn: bool)
    ensures
        drawn == (config.menubar_gradient_stops > 0 && has_width && has_height),
{
    !(config.menubar_gradient_stops == 0 || !has_width || !has_height)
}

/// Where the scale that bitmaps are rendered at is taken from.
#[derive(Clone, Copy, Debug, PartialEq, Eq, Structural)]
pub enum ScaleSource {
    /// The window of the status item's button.
    Window,
    /// The main screen.
    Screen,
    /// Neither: points are rendered as pixels.
    Unit,
}

/// Where the scale that bitmaps are rendered at is taken from.
///
/// Each argument tells whether that scale is above zero, or nothing where
/// there is no window or no screen. The screen is asked only where there is no
/// window: a window whose scale is of no use is not made up for by the screen.
pub fn backing_scale_source(window: Option<bool>, screen: Option<bool>) -> (source: ScaleSource)
    ensures
        source == ScaleSource::Window <==> window == Some(true),
        source == ScaleSource::Screen <==> window is None && screen == Some(true),
{
    match window {
        Some(usable) => if usable {
            ScaleSource::Window
        } else {
            ScaleSource::Unit
        },
        None => match screen {
            Some(true) => ScaleSource::Screen,
            Some(false) => ScaleSource::Unit,
            None => ScaleSource::Unit,
        },
    }
}

} // verus!
