use std::cell::Cell;

use pathtracer::color::Color;
use pathtracer::render::image;

#[test]
fn test_image() {
    let (width, height) = (100, 100);
    let count = Cell::new(0i64);
    let imbuf;
    {
        let renderer = |_x: u32, _y: u32| {
            count.set(count.get() + 1);
            Color::new(0u8, 0, 0)
        };
        imbuf = image(width, height, renderer);
    }
    assert!(count.get() == 100 * 100);
    assert!(imbuf.get_pixel(34, 21) == Color::new(0, 0, 0));
}

#[test]
fn test_image_dimensions() {
    let buf = image(7, 3, |_x, _y| Color::new(1, 2, 3));
    assert_eq!(buf.width(), 7);
    assert_eq!(buf.height(), 3);
}

#[test]
fn test_image_pixels_follow_coordinates() {
    let buf = image(3, 2, |x, y| Color::new(x as u8, y as u8, (10 * x + y) as u8));
    assert_eq!(buf.get_pixel(0, 0), Color::new(0, 0, 0));
    assert_eq!(buf.get_pixel(2, 0), Color::new(2, 0, 20));
    assert_eq!(buf.get_pixel(0, 1), Color::new(0, 1, 1));
    assert_eq!(buf.get_pixel(2, 1), Color::new(2, 1, 21));
}

#[test]
fn test_image_empty() {
    let buf = image(0, 5, |_x, _y| Color::new(9, 9, 9));
    assert_eq!(buf.width(), 0);
    assert_eq!(buf.height(), 5);
    assert!(buf.to_raw().is_empty());
}

#[test]
fn test_image_single_pixel() {
    let buf = image(1, 1, |_x, _y| Color::new(11, 22, 33));
    assert_eq!(buf.get_pixel(0, 0), Color::new(11, 22, 33));
}

#[test]
fn test_to_raw_layout() {
    let buf = image(2, 2, |x, y| Color::new(x as u8, y as u8, (x + 2 * y) as u8));
    let raw = buf.to_raw();
    // Row-major, three bytes per pixel: (0,0), (1,0), (0,1), (1,1).
    assert_eq!(
        raw,
        vec![
            0u8, 0, 0, //
            1, 0, 1, //
            0, 1, 2, //
            1, 1, 3,
        ]
    );
}

#[test]
fn test_color_new() {
    let c = Color::new(5, 6, 7);
    assert_eq!(c.red, 5);
    assert_eq!(c.green, 6);
    assert_eq!(c.blue, 7);
    let d = c;
    assert_eq!(c, d);
    assert_ne!(c, Color::new(5, 6, 8));
}
