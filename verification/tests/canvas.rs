use ip_map::canvas::{get_ui, get_world_map, Color, MapResolution, Rectangle, MARGIN, TITLE};
use ip_map::location::IpLocation;
use ip_map::projection::{get_bounds, Bounds};

fn london() -> IpLocation {
    IpLocation {
        country: String::from("United Kingdom"),
        city: String::from("London"),
        lat: 51_500_000,
        lon: -100_000,
    }
}

#[test]
fn world_map_of_london() {
    let map = get_world_map(-100_000, 51_500_000, 0, String::from("Here"));
    assert_eq!(map.title, "Here");
    assert!(map.bordered);
    assert_eq!(
        map.bounds,
        Bounds { x_from: -180_100_000, x_to: 179_900_000, y_from: -38_500_000, y_to: 141_500_000 }
    );
    assert_eq!(map.resolution, MapResolution::Low);
    assert_eq!(map.land, Color::White);
    assert_eq!(
        map.marker,
        Rectangle {
            x: -2_100_000,
            y: 49_500_000,
            width: 4_000_000,
            height: 4_000_000,
            color: Color::Red,
        }
    );
}

#[test]
fn world_map_keeps_its_title() {
    let map = get_world_map(0, 0, 10, String::new());
    assert_eq!(map.title, "");
    let map = get_world_map(0, 0, 10, String::from("a longer title, with \u{e9}"));
    assert_eq!(map.title, "a longer title, with \u{e9}");
}

#[test]
fn marker_is_a_square_of_four_degrees() {
    assert_eq!(MARGIN, 2_000_000);
    let map = get_world_map(12_345_678, -9_876_543, 50, String::from("t"));
    assert_eq!(map.marker.width, 2 * MARGIN);
    assert_eq!(map.marker.height, 2 * MARGIN);
    assert_eq!(map.marker.x, 12_345_678 - MARGIN);
    assert_eq!(map.marker.y, -9_876_543 - MARGIN);
    assert_eq!(2 * map.marker.x + map.marker.width, 2 * 12_345_678);
    assert_eq!(2 * map.marker.y + map.marker.height, 2 * -9_876_543);
}

#[test]
fn marker_does_not_depend_on_zoom() {
    let first = get_world_map(7_000_000, 8_000_000, 0, String::from("t")).marker;
    for zoom in 1..=130_u32 {
        assert_eq!(get_world_map(7_000_000, 8_000_000, zoom, String::from("t")).marker, first);
    }
}

#[test]
fn marker_lies_within_the_window() {
    let coords: [i32; 5] = [i32::MIN, -180_000_000, 0, 90_000_000, i32::MAX];
    let zooms: [u32; 5] = [0, 60, 125, 126, u32::MAX];
    for lon in coords {
        for lat in coords {
            for zoom in zooms {
                let map = get_world_map(lon, lat, zoom, String::from("t"));
                assert!(map.bounds.x_from <= map.marker.x);
                assert!(map.marker.x + map.marker.width <= map.bounds.x_to);
                assert!(map.bounds.y_from <= map.marker.y);
                assert!(map.marker.y + map.marker.height <= map.bounds.y_to);
            }
        }
    }
}

#[test]
fn window_of_the_map_is_the_projection() {
    for zoom in 0..=130_u32 {
        let map = get_world_map(-100_000, 51_500_000, zoom, String::from("t"));
        assert_eq!(map.bounds, get_bounds(-100_000, 51_500_000, zoom));
    }
}

#[test]
fn ui_shows_the_location_under_the_title() {
    let map = get_ui(&london(), 125);
    assert_eq!(TITLE, "Hello World");
    assert_eq!(map.title, "Hello World");
    assert!(map.bordered);
    assert_eq!(
        map.bounds,
        Bounds { x_from: -55_100_000, x_to: 54_900_000, y_from: 24_000_000, y_to: 79_000_000 }
    );
    assert_eq!(map.resolution, MapResolution::Low);
    assert_eq!(map.land, Color::White);
    assert_eq!(
        map.marker,
        Rectangle {
            x: -2_100_000,
            y: 49_500_000,
            width: 4_000_000,
            height: 4_000_000,
            color: Color::Red,
        }
    );
}

#[test]
fn ui_reads_longitude_and_latitude_the_right_way_round() {
    let place = IpLocation {
        country: String::from("c"),
        city: String::from("d"),
        lat: 10_000_000,
        lon: 20_000_000,
    };
    let map = get_ui(&place, 0);
    assert_eq!(map.bounds.x_from + map.bounds.x_to, 40_000_000);
    assert_eq!(map.bounds.y_from + map.bounds.y_to, 20_000_000);
    assert_eq!(map.marker.x, 18_000_000);
    assert_eq!(map.marker.y, 8_000_000);
}

#[test]
fn land_is_drawn_at_low_detail_at_every_zoom() {
    for zoom in 0..=130_u32 {
        let map = get_world_map(-100_000, 51_500_000, zoom, String::from("t"));
        assert_eq!(map.resolution, MapResolution::Low);
        assert_ne!(map.resolution, MapResolution::High);
        assert_eq!(map.land, Color::White);
    }
}
