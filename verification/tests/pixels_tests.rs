use layerrd::pixels::{demo_pixels, filled_pixels, initial_layer_pixels};

fn pixel(data: &[u8], width: u32, x: u32, y: u32) -> [u8; 4] {
    let i = ((y * width + x) * 4) as usize;
    [data[i], data[i + 1], data[i + 2], data[i + 3]]
}

#[test]
fn filled_background_is_opaque_white() {
    let d = filled_pixels(3, 2, 255);
    assert_eq!(d.len(), 24);
    assert!(d.iter().all(|&b| b == 255));
}

#[test]
fn cleared_layer_is_transparent() {
    let d = filled_pixels(5, 4, 0);
    assert_eq!(d.len(), 80);
    assert!(d.iter().all(|&b| b == 0));
}

#[test]
fn empty_canvas_has_no_bytes() {
    assert!(filled_pixels(0, 7, 255).is_empty());
    assert!(demo_pixels(7, 0).is_empty());
}

#[test]
fn demo_rectangle_small_canvas() {
    // 8 x 8: centre (4, 4), rectangle 2 x 2 covering x and y in 3..5
    let d = demo_pixels(8, 8);
    assert_eq!(d.len(), 256);
    let blue = [70, 130, 220, 200];
    assert_eq!(pixel(&d, 8, 3, 3), blue);
    assert_eq!(pixel(&d, 8, 4, 4), blue);
    assert_eq!(pixel(&d, 8, 3, 4), blue);
    assert_eq!(pixel(&d, 8, 2, 3), [0, 0, 0, 0]);
    assert_eq!(pixel(&d, 8, 5, 5), [0, 0, 0, 0]);
    assert_eq!(pixel(&d, 8, 0, 0), [0, 0, 0, 0]);
    let colored = d.chunks(4).filter(|p| p[3] != 0).count();
    assert_eq!(colored, 4);
}

#[test]
fn demo_rectangle_default_canvas() {
    // 1920 x 1080: x in 720..1200, y in 405..675
    let d = demo_pixels(1920, 1080);
    assert_eq!(d.len(), 1920 * 1080 * 4);
    let blue = [70, 130, 220, 200];
    assert_eq!(pixel(&d, 1920, 720, 405), blue);
    assert_eq!(pixel(&d, 1920, 1199, 674), blue);
    assert_eq!(pixel(&d, 1920, 719, 405), [0, 0, 0, 0]);
    assert_eq!(pixel(&d, 1920, 1200, 500), [0, 0, 0, 0]);
    assert_eq!(pixel(&d, 1920, 960, 675), [0, 0, 0, 0]);
    assert_eq!(pixel(&d, 1920, 960, 404), [0, 0, 0, 0]);
    let colored = d.chunks(4).filter(|p| *p == blue).count();
    assert_eq!(colored, 480 * 270);
}

#[test]
fn demo_rectangle_tiny_canvas_is_empty() {
    // 3 x 3: the rectangle has zero width and height
    let d = demo_pixels(3, 3);
    assert_eq!(d.len(), 36);
    assert!(d.iter().all(|&b| b == 0));
}

#[test]
fn initial_layers_pixels() {
    assert_eq!(initial_layer_pixels(8, 8, 0), filled_pixels(8, 8, 255));
    assert_eq!(initial_layer_pixels(8, 8, 1), demo_pixels(8, 8));
}
