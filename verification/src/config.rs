//! Bar configuration: dock direction, z-order hint, margins, thickness and
//! transparency, gathered by a builder that the user bar fills in once.

use vstd::prelude::*;
use vstd::string::StringExecFns;

verus! {

/// The screen edge a bar is anchored to.
#[derive(Debug, Clone, Copy, PartialEq, Eq, Structural)]
pub enum DockDirection {
    Top,
    Bottom,
    Left,
    Right,
}

/// Stacking hint for the bar window.
#[derive(Debug, Clone, Copy, PartialEq, Eq, Structural)]
pub enum ZIndex {
    AboveEverything,
    Normal,
    BelowEverything,
}

/// Immutable bar configuration, built once per bar instance and consumed by
/// the adapter. `width` is the bar's thickness in pixels; the margins are
/// screen-relative and trim the strut span along the docked edge.
#[derive(Debug, Clone)]
pub struct BarBuilder {
    pub title: String,
    pub docking: DockDirection,
    pub margin_left: i32,
    pub margin_right: i32,
    pub z_index: ZIndex,
    pub transparency: bool,
    pub width: u32,
}

/// Everything of a configuration but the title, as one spec value, so that a
/// builder step can state in one clause which fields it keeps.
pub open spec fn config_fields(c: BarBuilder) -> (DockDirection, int, int, ZIndex, bool, int) {
    (c.docking, c.margin_left as int, c.margin_right as int, c.z_index, c.transparency, c.width as int)
}

impl Default for BarBuilder {
    /// The default configuration: a 20-pixel opaque bar at the bottom edge,
    /// stacked below everything, with no margins.
    fn default() -> (r: Self)
        ensures
            r.title@ == "dockbar"@,
            r.docking == DockDirection::Bottom,
            r.margin_left == 0,
            r.margin_right == 0,
            r.z_index == ZIndex::BelowEverything,
            !r.transparency,
            r.width == 20,
    {
        BarBuilder {
            title: String::from_str("dockbar"),
            docking: DockDirection::Bottom,
            margin_left: 0,
            margin_right: 0,
            z_index: ZIndex::BelowEverything,
            transparency: false,
            width: 20,
        }
    }
}

impl BarBuilder {
    /// Replaces the title with an owned string.
    pub fn title_owned(self, title: String) -> (r: Self)
        ensures
            r.title == title,
            config_fields(r) == config_fields(self),
    {
        BarBuilder {
            title,
            docking: self.docking,
            margin_left: self.margin_left,
            margin_right: self.margin_right,
            z_index: self.z_index,
            transparency: self.transparency,
            width: self.width,
        }
    }

    /// Replaces the title with a borrowed string constant.
    pub fn title(self, title: &'static str) -> (r: Self)
        ensures
            r.title@ == title@,
            config_fields(r) == config_fields(self),
    {
        BarBuilder {
            title: String::from_str(title),
            docking: self.docking,
            margin_left: self.margin_left,
            margin_right: self.margin_right,
            z_index: self.z_index,
            transparency: self.transparency,
            width: self.width,
        }
    }

    /// Sets both margins at once.
    pub fn margin(self, left: i32, right: i32) -> (r: Self)
        ensures
            r.margin_left == left,
            r.margin_right == right,
            r.title == self.title,
            r.docking == self.docking,
            r.z_index == self.z_index,
            r.transparency == self.transparency,
            r.width == self.width,
    {
        BarBuilder {
            title: self.title,
            docking: self.docking,
            margin_left: left,
            margin_right: right,
            z_index: self.z_index,
            transparency: self.transparency,
            width: self.width,
        }
    }

    /// Sets the dock direction.
    pub fn docking(self, docking: DockDirection) -> (r: Self)
        ensures
            r.docking == docking,
            r.title == self.title,
            r.margin_left == self.margin_left,
            r.margin_right == self.margin_right,
            r.z_index == self.z_index,
            r.transparency == self.transparency,
            r.width == self.width,
    {
        BarBuilder {
            title: self.title,
            docking,
            margin_left: self.margin_left,
            margin_right: self.margin_right,
            z_index: self.z_index,
            transparency: self.transparency,
            width: self.width,
        }
    }

    /// Sets the z-order hint.
    pub fn z_index(self, z_index: ZIndex) -> (r: Self)
        ensures
            r.z_index == z_index,
            r.title == self.title,
            r.docking == self.docking,
            r.margin_left == self.margin_left,
            r.margin_right == self.margin_right,
            r.transparency == self.transparency,
            r.width == self.width,
    {
        BarBuilder {
            title: self.title,
            docking: self.docking,
            margin_left: self.margin_left,
            margin_right: self.margin_right,
            z_index,
            transparency: self.transparency,
            width: self.width,
        }
    }

    /// Sets the transparency flag.
    pub fn transparency(self, transparency: bool) -> (r: Self)
        ensures
            r.transparency == transparency,
            r.title == self.title,
            r.docking == self.docking,
            r.margin_left == self.margin_left,
            r.margin_right == self.margin_right,
            r.z_index == self.z_index,
            r.width == self.width,
    {
        BarBuilder {
            title: self.title,
            docking: self.docking,
            margin_left: self.margin_left,
            margin_right: self.margin_right,
            z_index: self.z_index,
            transparency,
            width: self.width,
        }
    }

    /// Sets the bar thickness in pixels.
    pub fn width(self, width: u32) -> (r: Self)
        ensures
            r.width == width,
            r.title == self.title,
            r.docking == self.docking,
            r.margin_left == self.margin_left,
            r.margin_right == self.margin_right,
            r.z_index == self.z_index,
            r.transparency == self.transparency,
    {
        BarBuilder {
            title: self.title,
            docking: self.docking,
            margin_left: self.margin_left,
            margin_right: self.margin_right,
            z_index: self.z_index,
            transparency: self.transparency,
            width,
        }
    }

    /// Reads the dock direction.
    pub fn get_docking(&self) -> (r: &DockDirection)
        ensures
            *r == self.docking,
    {
        &self.docking
    }

    /// Reads the left margin.
    pub fn get_margin_left(&self) -> (r: &i32)
        ensures
            *r == self.margin_left,
    {
        &self.margin_left
    }

    /// Reads the right margin.
    pub fn get_margin_right(&self) -> (r: &i32)
        ensures
            *r == self.margin_right,
    {
        &self.margin_right
    }

    /// Reads the z-order hint.
    pub fn get_z_index(&self) -> (r: &ZIndex)
        ensures
            *r == self.z_index,
    {
        &self.z_index
    }

    /// Reads the transparency flag.
    pub fn get_transparency(&self) -> (r: &bool)
        ensures
            *r == self.transparency,
    {
        &self.transparency
    }

    /// Reads the bar thickness.
    pub fn get_width(&self) -> (r: &u32)
        ensures
            *r == self.width,
    {
        &self.width
    }
}

} // verus!
