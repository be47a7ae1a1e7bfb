//! The map projection: from a centre point and a zoom level to the window of
//! the map that is visible.

use vstd::prelude::*;

verus! {

/// Coordinate units in one degree of arc (the unit is the micro-degree).
pub const UNITS_PER_DEGREE: i64 = 1_000_000;

/// The highest zoom level, in degrees: the animation stops zooming in when
/// it reaches it, and the window is never narrower than at this level.
pub const MAX_ZOOM: u32 = 125;

/// The visible window of the map, in coordinate units.
#[derive(Clone, Copy, Debug, PartialEq, Eq, Structural)]
pub struct Bounds {
    pub x_from: i64,
    pub x_to: i64,
    pub y_from: i64,
    pub y_to: i64,
}

/// The mathematical window that a `Bounds` value stands for.
pub struct Viewport {
    pub x_from: int,
    pub x_to: int,
    pub y_from: int,
    pub y_to: int,
}

impl Viewport {
    /// Horizontal extent of the window.
    pub open spec fn width(self) -> int {
        self.x_to - self.x_from
    }

    /// Vertical extent of the window.
    pub open spec fn height(self) -> int {
        self.y_to - self.y_from
    }

    /// Midpoint of the horizontal edges.
    pub open spec fn mid_x(self) -> int {
        (self.x_from + self.x_to) / 2
    }

    /// Midpoint of the vertical edges.
    pub open spec fn mid_y(self) -> int {
        (self.y_from + self.y_to) / 2
    }

    /// The window has a positive extent in both directions.
    pub open spec fn upright(self) -> bool {
        self.x_from < self.x_to && self.y_from < self.y_to
    }
}

impl View for Bounds {
    type V = Viewport;

    open spec fn view(&self) -> Viewport {
        Viewport {
            x_from: self.x_from as int,
            x_to: self.x_to as int,
            y_from: self.y_from as int,
            y_to: self.y_to as int,
        }
    }
}

/// The zoom level that the projection works with: `zoom`, held at `MAX_ZOOM`.
pub open spec fn clamp_zoom(zoom: int) -> int {
    if zoom <= MAX_ZOOM {
        zoom
    } else {
        MAX_ZOOM as int
    }
}

/// Half the window's width at `zoom` degrees: `180 - zoom` degrees.
pub open spec fn half_width(zoom: int) -> int {
    (180 - zoom) * UNITS_PER_DEGREE
}

/// Half the window's height at `zoom` degrees: `90 - zoom / 2` degrees.
pub open spec fn half_height(zoom: int) -> int {
    90 * UNITS_PER_DEGREE - zoom * UNITS_PER_DEGREE / 2
}

/// The window centred on (`lon`, `lat`) at exactly `zoom` degrees of zoom.
pub open spec fn window(lon: int, lat: int, zoom: int) -> Viewport {
    Viewport {
        x_from: -half_width(zoom) + lon,
        x_to: half_width(zoom) + lon,
        y_from: -half_height(zoom) + lat,
        y_to: half_height(zoom) + lat,
    }
}

/// The window that is shown for (`lon`, `lat`) at `zoom`: zoom levels past
/// `MAX_ZOOM` show the window of `MAX_ZOOM`.
pub open spec fn viewport(lon: int, lat: int, zoom: int) -> Viewport {
    window(lon, lat, clamp_zoom(zoom))
}

/// Computes the visible window for a centre point given in micro-degrees and
/// a zoom level in degrees.
pub fn get_bounds(lon: i32, lat: i32, zoom: u32) -> (bounds: Bounds)
    ensures
        bounds@ == viewport(lon as int, lat as int, zoom as int),
        bounds@.upright(),
{
    let z: i64 = if zoom <= MAX_ZOOM {
        zoom as i64
    } else {
        MAX_ZOOM as i64
    };
    let half_width: i64 = (180 - z) * UNITS_PER_DEGREE;
    let half_height: i64 = 90 * UNITS_PER_DEGREE - z * UNITS_PER_DEGREE / 2;
    Bounds {
        x_from: -half_width + lon as i64,
        x_to: half_width + lon as i64,
        y_from: -half_height + lat as i64,
        y_to: half_height + lat as i64,
    }
}

/// Centering: the window's midpoint is the centre point it was made for, in
/// both directions and at every zoom level.
pub proof fn lemma_projection_centered(lon: int, lat: int, zoom: int)
    ensures
        viewport(lon, lat, zoom).mid_x() == lon,
        viewport(lon, lat, zoom).mid_y() == lat,
{
}

/// Monotonicity: for a fixed centre point, a higher zoom level up to
/// `MAX_ZOOM` gives a strictly narrower and strictly lower window.
pub proof fn lemma_projection_narrows(lon: int, lat: int, zoom: int, higher: int)
    requires
        zoom < higher <= MAX_ZOOM,
    ensures
        viewport(lon, lat, higher).width() < viewport(lon, lat, zoom).width(),
        viewport(lon, lat, higher).height() < viewport(lon, lat, zoom).height(),
{
}

/// Aspect coupling: the window is always exactly twice as wide as it is
/// high.
pub proof fn lemma_projection_aspect(lon: int, lat: int, zoom: int)
    ensures
        viewport(lon, lat, zoom).width() == 2 * viewport(lon, lat, zoom).height(),
{
}

/// The window never turns inside out: at every zoom level its left edge lies
/// left of its right edge, and its lower edge below its upper edge.
pub proof fn lemma_projection_upright(lon: int, lat: int, zoom: int)
    ensures
        viewport(lon, lat, zoom).upright(),
{
}

/// The window is never smaller than at `MAX_ZOOM`: at every zoom level it is
/// at least 110 degrees wide and 55 degrees high.
pub proof fn lemma_projection_least_window(lon: int, lat: int, zoom: int)
    ensures
        viewport(lon, lat, zoom).width() >= 110 * UNITS_PER_DEGREE,
        viewport(lon, lat, zoom).height() >= 55 * UNITS_PER_DEGREE,
{
}

/// A zoom level past `MAX_ZOOM` shows the window of `MAX_ZOOM`, and a level
/// within it shows the window of that very level.
pub proof fn lemma_projection_holds_at_maximum(lon: int, lat: int, zoom: int)
    ensures
        zoom >= MAX_ZOOM ==> viewport(lon, lat, zoom) == window(lon, lat, MAX_ZOOM as int),
        zoom <= MAX_ZOOM ==> viewport(lon, lat, zoom) == window(lon, lat, zoom),
{
}

} // verus!
