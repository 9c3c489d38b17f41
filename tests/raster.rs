use raytrace::pixel::Pixel;
use raytrace::raster::{blank_image, pixel_index, store_pixel, to_channel};

#[test]
fn bottom_row_goes_last() {
    // 3 wide, 2 high: row j = 0 is the bottom, stored in the second buffer row.
    assert_eq!(pixel_index(3, 2, 0, 0), 3);
    assert_eq!(pixel_index(3, 2, 2, 0), 5);
    assert_eq!(pixel_index(3, 2, 0, 1), 0);
    assert_eq!(pixel_index(3, 2, 1, 1), 1);
}

#[test]
fn indices_cover_buffer_once() {
    let (w, h) = (4usize, 3usize);
    let mut seen = vec![false; w * h];
    for j in 0..h {
        for i in 0..w {
            let k = pixel_index(w, h, i, j);
            assert!(!seen[k]);
            seen[k] = true;
        }
    }
    assert!(seen.iter().all(|s| *s));
}

#[test]
fn channel_levels_wrap_to_bytes() {
    assert_eq!(to_channel(0), 0);
    assert_eq!(to_channel(255), 255);
    assert_eq!(to_channel(256), 0);
    assert_eq!(to_channel(300), 44);
    assert_eq!(to_channel(-1), 255);
    assert_eq!(to_channel(-256), 0);
    assert_eq!(to_channel(-257), 255);
    assert_eq!(to_channel(i32::MAX), 255);
    assert_eq!(to_channel(i32::MIN), 0);
}

#[test]
fn blank_image_is_black() {
    let image = blank_image(5, 2);
    assert_eq!(image.len(), 10);
    assert!(image.iter().all(|p| *p == Pixel::new(0, 0, 0)));
    assert!(blank_image(0, 7).is_empty());
}

#[test]
fn store_pixel_writes_flipped_position() {
    let mut image = blank_image(2, 2);
    store_pixel(&mut image, 2, 2, 1, 0, 10, 300, -1);
    assert_eq!(image[3], Pixel::new(10, 44, 255));
    for k in 0..3 {
        assert_eq!(image[k], Pixel::new(0, 0, 0));
    }
}
