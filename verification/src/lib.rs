//! A verified core for showing a geographic position on a zooming world map.
//!
//! The crate decides everything that can be decided without touching a
//! terminal or a network: which window of the map is visible at a zoom level
//! (`projection`), what one frame consists of (`canvas`), which input ends
//! the animation (`input`), and how the animation advances from frame to
//! frame (`animation`). The caller owns the terminal and the lookup of the
//! position (`location`); it draws the frames that the crate describes and
//! hands back what each poll of the keyboard yielded.
//!
//! Coordinates are fixed-point: every longitude, latitude and window edge is
//! a whole number of micro-degrees, so that the projection is exact and its
//! laws hold over the integers. The zoom level is a whole number of degrees,
//! advanced by one per frame until it reaches its maximum.

pub mod animation;
pub mod canvas;
pub mod input;
pub mod location;
pub mod projection;
