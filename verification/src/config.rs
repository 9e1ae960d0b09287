//! The settings of the magnifier and how two sources of them are merged.

use vstd::prelude::*;

verus! {

/// The settings. A field that a source does not set is `None`.
#[derive(Clone, Debug)]
pub struct Config {
    /// Clip the zoomed patch to a circle.
    pub circle: bool,
    /// Initial width of the zoomed patch.
    pub width: Option<u32>,
    /// Initial height of the zoomed patch.
    pub height: Option<u32>,
    /// Side of the square of the screen that is magnified.
    pub zoom_area: Option<u32>,
    /// Colour of the border or ring, in hexadecimal notation.
    pub border_color: Option<String>,
    /// Thickness of the border or ring in pixels.
    pub border_thickness: Option<u32>,
}

impl Default for Config {
    fn default() -> (out: Config)
        ensures
            out == (Config {
                circle: false,
                width: None,
                height: None,
                zoom_area: None,
                border_color: None,
                border_thickness: None,
            }),
    {
        Config {
            circle: false,
            width: None,
            height: None,
            zoom_area: None,
            border_color: None,
            border_thickness: None,
        }
    }
}

/// The width of the patch where none is set.
pub const DEFAULT_WIDTH: u32 = 400;

/// The height of the patch where none is set.
pub const DEFAULT_HEIGHT: u32 = 200;

/// The side of the magnified square where none is set.
pub const DEFAULT_ZOOM_AREA: u32 = 50;

/// The thickness of the border or ring where none is set.
pub const DEFAULT_BORDER_THICKNESS: u32 = 5;

/// Whether `swap_option` exchanges the two: the left one is unset, or the
/// right one is set.
pub open spec fn swaps<T>(left: Option<T>, right: Option<T>) -> bool {
    left is None || right is Some
}

/// Exchanges the two options where the left one is unset or the right one is
/// set, so that a value on the right wins and a value on the left is kept only
/// against nothing.
pub fn swap_option<T>(left: &mut Option<T>, right: &mut Option<T>)
    ensures
        swaps(*old(left), *old(right)) ==> *final(left) == *old(right) && *final(right) == *old(
            left,
        ),
        !swaps(*old(left), *old(right)) ==> *final(left) == *old(left) && *final(right) == *old(
            right,
        ),
{
    if left.is_none() || right.is_some() {
        core::mem::swap(left, right);
    }
}

/// `merge2::bool::overwrite_true` sets the left flag to the right one where
/// the left one is set, and leaves the right one alone: the left flag ends as
/// the conjunction of the two.
pub assume_specification[ merge2::bool::overwrite_true ](left: &mut bool, right: &mut bool)
    ensures
        *final(left) == (*old(left) && *old(right)),
        *final(right) == *old(right),
;

impl Config {
    /// What `merge` leaves in `self`: the conjunction of the two `circle`
    /// flags, and of every other field the value of `other` where `other`
    /// sets it or `self` does not.
    pub open spec fn merged(self, other: Config) -> Config {
        Config {
            circle: self.circle && other.circle,
            width: if swaps(self.width, other.width) {
                other.width
            } else {
                self.width
            },
            height: if swaps(self.height, other.height) {
                other.height
            } else {
                self.height
            },
            zoom_area: if swaps(self.zoom_area, other.zoom_area) {
                other.zoom_area
            } else {
                self.zoom_area
            },
            border_color: if swaps(self.border_color, other.border_color) {
                other.border_color
            } else {
                self.border_color
            },
            border_thickness: if swaps(self.border_thickness, other.border_thickness) {
                other.border_thickness
            } else {
                self.border_thickness
            },
        }
    }

    /// What `merge` leaves in `other`: its `circle` flag, and of every other
    /// field what `self` held where the two were exchanged.
    pub open spec fn merge_rest(self, other: Config) -> Config {
        Config {
            circle: other.circle,
            width: if swaps(self.width, other.width) {
                self.width
            } else {
                other.width
            },
            height: if swaps(self.height, other.height) {
                self.height
            } else {
                other.height
            },
            zoom_area: if swaps(self.zoom_area, other.zoom_area) {
                self.zoom_area
            } else {
                other.zoom_area
            },
            border_color: if swaps(self.border_color, other.border_color) {
                self.border_color
            } else {
                other.border_color
            },
            border_thickness: if swaps(self.border_thickness, other.border_thickness) {
                self.border_thickness
            } else {
                other.border_thickness
            },
        }
    }

    /// Merges `other` into `self`, field by field: `circle` by
    /// `overwrite_true`, every other field by `swap_option`.
    pub fn merge(&mut self, other: &mut Config)
        ensures
            *final(self) == old(self).merged(*old(other)),
            *final(other) == old(self).merge_rest(*old(other)),
    {
        merge2::bool::overwrite_true(&mut self.circle, &mut other.circle);
        swap_option(&mut self.width, &mut other.width);
        swap_option(&mut self.height, &mut other.height);
        swap_option(&mut self.zoom_area, &mut other.zoom_area);
        swap_option(&mut self.border_color, &mut other.border_color);
        swap_option(&mut self.border_thickness, &mut other.border_thickness);
    }
}

/// The settings in force: those of the file merged with those of the command
/// line where a file was read, and those of the command line alone otherwise.
pub open spec fn resolved(file: Option<Config>, args: Config) -> Config {
    match file {
        Some(config) => config.merged(args),
        None => args,
    }
}

/// The settings in force, from what the settings file held, if there was
/// one, and what the command line gave.
pub fn resolve(file: Option<Config>, args: Config) -> (out: Config)
    ensures
        out == resolved(file, args),
{
    match file {
        Some(config) => {
            let mut config = config;
            let mut args = args;
            config.merge(&mut args);
            config
        },
        None => args,
    }
}

} // verus!
