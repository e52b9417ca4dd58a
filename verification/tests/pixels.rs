use ncc::{Image, Pixel};

#[test]
fn intensity_is_the_weighted_channel_sum() {
    assert_eq!(Pixel { r: 255, g: 0, b: 0, a: 255 }.intensity(), 54);
    assert_eq!(Pixel { r: 0, g: 255, b: 0, a: 255 }.intensity(), 182);
    assert_eq!(Pixel { r: 0, g: 0, b: 255, a: 255 }.intensity(), 18);
    assert_eq!(Pixel { r: 10, g: 20, b: 30, a: 0 }.intensity(), 18);
    assert_eq!(Pixel::rgb(200, 100, 50).intensity(), 117);
}

#[test]
fn intensity_ignores_alpha() {
    for a in [0u8, 1, 127, 255] {
        assert_eq!(Pixel { r: 90, g: 3, b: 201, a }.intensity(), 35);
    }
}

#[test]
fn grey_pixel_has_its_level_as_intensity() {
    for level in 0..=255u8 {
        let p = Pixel::grey(level);
        assert_eq!(p, Pixel { r: level, g: level, b: level, a: 255 });
        assert_eq!(p.intensity(), level);
    }
}

#[test]
fn image_needs_one_pixel_per_cell() {
    let px = |n: usize| vec![Pixel::grey(7); n];
    assert!(Image::new(2, 3, px(6)).is_some());
    assert!(Image::new(2, 3, px(5)).is_none());
    assert!(Image::new(2, 3, px(7)).is_none());
    assert!(Image::new(0, 3, px(0)).is_some());
    assert!(Image::new(0, 0, px(1)).is_none());
    assert!(Image::new(u32::MAX, u32::MAX, px(1)).is_none());
}

#[test]
fn image_pixels_are_stored_row_by_row() {
    let pixels: Vec<Pixel> = (0..6u8).map(Pixel::grey).collect();
    let img = Image::new(3, 2, pixels).unwrap();
    assert_eq!(img.width(), 3);
    assert_eq!(img.height(), 2);
    assert_eq!(img.dimensions(), (3, 2));
    assert_eq!(img.get_pixel(0, 0), Some(Pixel::grey(0)));
    assert_eq!(img.get_pixel(2, 0), Some(Pixel::grey(2)));
    assert_eq!(img.get_pixel(0, 1), Some(Pixel::grey(3)));
    assert_eq!(img.get_pixel(2, 1), Some(Pixel::grey(5)));
    assert_eq!(img.pixel(1, 1), Pixel::grey(4));
    assert_eq!(img.get_pixel(3, 0), None);
    assert_eq!(img.get_pixel(0, 2), None);
}
