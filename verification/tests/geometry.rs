use desktop_probe::geometry::{Bounds, Rect, BASE_DPI};

#[test]
fn default_bounds_are_zero_at_the_base_dpi() {
    let bounds = Bounds::default();
    assert_eq!(bounds, Bounds { x: 0, y: 0, width: 0, height: 0, dpi: 96 });
    assert!(bounds.is_none());
    assert_eq!(BASE_DPI, 96);
}

#[test]
fn bounds_with_a_size_are_not_none() {
    assert!(!Bounds { x: 0, y: 0, width: 1, height: 0, dpi: 96 }.is_none());
    assert!(!Bounds { x: -1, y: 0, width: 0, height: 0, dpi: 96 }.is_none());
    assert!(Bounds { x: 0, y: 0, width: 0, height: 0, dpi: 144 }.is_none());
}

#[test]
fn monitor_bounds_are_the_rectangle_as_it_is() {
    let bounds = Bounds::monitor(Rect { left: -1920, top: -30, right: 0, bottom: 1050 });
    assert_eq!(bounds, Bounds { x: -1920, y: -30, width: 1920, height: 1080, dpi: 96 });
}

#[test]
fn window_bounds_keep_pixels_and_dpi() {
    let bounds = Bounds::window(Rect { left: -50, top: 100, right: 450, bottom: 600 }, 120);
    assert_eq!(bounds, Bounds { x: 0, y: 100, width: 500, height: 500, dpi: 120 });
    let scale = bounds.dpi as f64 / BASE_DPI as f64;
    assert_eq!(scale, 1.25);
    assert_eq!(bounds.y as f64 / scale, 80.0);
    assert_eq!(bounds.width as f64 / scale, 400.0);
}

#[test]
fn window_bounds_at_unknown_dpi_are_unscaled() {
    let bounds = Bounds::window(Rect { left: 7, top: 9, right: 107, bottom: 59 }, 0);
    assert_eq!(bounds, Bounds { x: 7, y: 9, width: 100, height: 50, dpi: 96 });
}

#[test]
fn rectangle_at_the_origin_is_empty() {
    assert_eq!(Rect::default(), Rect { left: 0, top: 0, right: 0, bottom: 0 });
    let bounds = Bounds::window(Rect::default(), 192);
    assert!(bounds.is_none());
    assert_eq!(bounds.dpi, 192);
}

#[test]
fn reversed_rectangle_has_negative_size() {
    let bounds = Bounds::window(Rect { left: 10, top: 10, right: 0, bottom: 5 }, 96);
    assert_eq!((bounds.width, bounds.height), (-10, -5));
}
