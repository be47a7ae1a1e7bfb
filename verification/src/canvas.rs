//! The description of one frame: a titled, bordered panel that holds the map
//! in its window, and the marker drawn over the map at the resolved position.
//! Building the description draws nothing; whoever owns the terminal turns it
//! into glyphs.

use vstd::prelude::*;
use crate::location::IpLocation;
use crate::projection::{get_bounds, viewport, Bounds, Viewport, UNITS_PER_DEGREE};

verus! {

/// Half the side of the marker: two degrees.
pub const MARGIN: i64 = 2 * UNITS_PER_DEGREE;

/// The title of the frame around the map.
pub const TITLE: &'static str = "Hello World";

/// The colours of a frame.
#[derive(Clone, Copy, Debug, PartialEq, Eq, Structural)]
pub enum Color {
    White,
    Red,
}

/// How closely the outline of the land masses is drawn: with few points, or
/// with many.
#[derive(Clone, Copy, Debug, PartialEq, Eq, Structural)]
pub enum MapResolution {
    Low,
    High,
}

/// An axis-parallel rectangle in coordinate units, by its lower left corner
/// and its extent.
#[derive(Clone, Copy, Debug, PartialEq, Eq, Structural)]
pub struct Rectangle {
    pub x: i64,
    pub y: i64,
    pub width: i64,
    pub height: i64,
    pub color: Color,
}

/// The mathematical rectangle that a `Rectangle` value stands for.
pub struct RectangleView {
    pub x: int,
    pub y: int,
    pub width: int,
    pub height: int,
    pub color: Color,
}

impl View for Rectangle {
    type V = RectangleView;

    open spec fn view(&self) -> RectangleView {
        RectangleView {
            x: self.x as int,
            y: self.y as int,
            width: self.width as int,
            height: self.height as int,
            color: self.color,
        }
    }
}

impl RectangleView {
    /// The rectangle lies within `window`, edges included.
    pub open spec fn within(self, window: Viewport) -> bool {
        &&& window.x_from <= self.x
        &&& self.x + self.width <= window.x_to
        &&& window.y_from <= self.y
        &&& self.y + self.height <= window.y_to
    }
}

/// One frame, ready to be drawn: a panel under `title`, with a border on all
/// sides if `bordered`; in it first the outline of the land masses, once, at
/// the level of detail `resolution` and in the colour `land`, over the whole
/// of `bounds`; then `marker` on top of it.
#[derive(Debug)]
pub struct WorldMap {
    pub title: String,
    pub bordered: bool,
    pub bounds: Bounds,
    pub resolution: MapResolution,
    pub land: Color,
    pub marker: Rectangle,
}

/// The mathematical frame that a `WorldMap` value stands for.
pub struct WorldMapView {
    pub title: Seq<char>,
    pub bordered: bool,
    pub bounds: Viewport,
    pub resolution: MapResolution,
    pub land: Color,
    pub marker: RectangleView,
}

impl View for WorldMap {
    type V = WorldMapView;

    open spec fn view(&self) -> WorldMapView {
        WorldMapView {
            title: self.title@,
            bordered: self.bordered,
            bounds: self.bounds@,
            resolution: self.resolution,
            land: self.land,
            marker: self.marker@,
        }
    }
}

/// The marker for the position (`lon`, `lat`): a red square with a side of
/// twice `MARGIN`, centred on the position.
pub open spec fn marker_at(lon: int, lat: int) -> RectangleView {
    RectangleView {
        x: lon - MARGIN,
        y: lat - MARGIN,
        width: 2 * MARGIN,
        height: 2 * MARGIN,
        color: Color::Red,
    }
}

/// The frame for the position (`lon`, `lat`) at `zoom`, under `title`: a
/// panel bordered on all sides, the land at low detail and in white within
/// the window of the projection, and the marker.
pub open spec fn world_map(lon: int, lat: int, zoom: int, title: Seq<char>) -> WorldMapView {
    WorldMapView {
        title,
        bordered: true,
        bounds: viewport(lon, lat, zoom),
        resolution: MapResolution::Low,
        land: Color::White,
        marker: marker_at(lon, lat),
    }
}

/// Describes the frame that shows the position (`lon`, `lat`), given in
/// micro-degrees, at `zoom` degrees of zoom.
pub fn get_world_map(lon: i32, lat: i32, zoom: u32, title: String) -> (map: WorldMap)
    ensures
        map@ == world_map(lon as int, lat as int, zoom as int, title@),
        map@.marker.within(map@.bounds),
{
    let bounds = get_bounds(lon, lat, zoom);
    WorldMap {
        title,
        bordered: true,
        bounds,
        resolution: MapResolution::Low,
        land: Color::White,
        marker: Rectangle {
            x: lon as i64 - MARGIN,
            y: lat as i64 - MARGIN,
            width: MARGIN * 2,
            height: MARGIN * 2,
            color: Color::Red,
        },
    }
}

/// Describes the frame that shows `ip_location` at `zoom` degrees of zoom,
/// under the title `TITLE`.
pub fn get_ui(ip_location: &IpLocation, zoom: u32) -> (map: WorldMap)
    ensures
        map@ == world_map(ip_location.lon as int, ip_location.lat as int, zoom as int, TITLE@),
        map@.marker.within(map@.bounds),
{
    get_world_map(ip_location.lon, ip_location.lat, zoom, TITLE.to_owned())
}

/// The marker lies within the window at every zoom level, and the position
/// is the centre of both.
pub proof fn lemma_marker_in_view(lon: int, lat: int, zoom: int)
    ensures
        marker_at(lon, lat).within(viewport(lon, lat, zoom)),
        2 * marker_at(lon, lat).x + marker_at(lon, lat).width == 2 * lon,
        2 * marker_at(lon, lat).y + marker_at(lon, lat).height == 2 * lat,
{
}

} // verus!
