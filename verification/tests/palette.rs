use mandelbrot_image::palette::{palette_rgb, palette_rgba, Rgb, Rgba};

#[test]
fn count_at_its_cap_is_black() {
    assert_eq!(palette_rgb(100, 100), Rgb { red: 0, green: 0, blue: 0 });
    assert_eq!(palette_rgb(1000, 1000), Rgb { red: 0, green: 0, blue: 0 });
    assert_eq!(palette_rgb(1, 1), Rgb { red: 0, green: 0, blue: 0 });
    assert_eq!(palette_rgba(100, 100), Rgba { red: 0, green: 0, blue: 0, alpha: 255 });
}

#[test]
fn cap_of_zero_is_black() {
    assert_eq!(palette_rgb(0, 0), Rgb { red: 0, green: 0, blue: 0 });
    assert_eq!(palette_rgba(0, 0), Rgba { red: 0, green: 0, blue: 0, alpha: 255 });
}

#[test]
fn count_above_its_cap_is_black() {
    assert_eq!(palette_rgb(101, 100), Rgb { red: 0, green: 0, blue: 0 });
    assert_eq!(palette_rgb(usize::MAX, 3), Rgb { red: 0, green: 0, blue: 0 });
}

#[test]
fn gradient_starts_at_deep_blue() {
    assert_eq!(palette_rgb(0, 100), Rgb { red: 0, green: 0, blue: 128 });
    assert_eq!(palette_rgb(0, 1), Rgb { red: 0, green: 0, blue: 128 });
    assert_eq!(palette_rgb(1, 1000), Rgb { red: 0, green: 0, blue: 128 });
}

#[test]
fn gradient_has_the_stated_shades() {
    assert_eq!(palette_rgb(50, 100), Rgb { red: 127, green: 127, blue: 191 });
    assert_eq!(palette_rgb(500, 1000), Rgb { red: 127, green: 127, blue: 191 });
    assert_eq!(palette_rgb(99, 100), Rgb { red: 252, green: 252, blue: 254 });
    assert_eq!(palette_rgb(999, 1000), Rgb { red: 254, green: 254, blue: 255 });
    assert_eq!(palette_rgb(1, 2), Rgb { red: 127, green: 127, blue: 191 });
    assert_eq!(palette_rgb(4, 1000), Rgb { red: 1, green: 1, blue: 128 });
    assert_eq!(palette_rgb(8, 1000), Rgb { red: 2, green: 2, blue: 129 });
}

#[test]
fn gradient_holds_for_the_largest_counts() {
    assert_eq!(palette_rgb(usize::MAX - 1, usize::MAX), Rgb { red: 254, green: 254, blue: 255 });
    assert_eq!(palette_rgb(usize::MAX / 2, usize::MAX), Rgb { red: 127, green: 127, blue: 191 });
}

#[test]
fn opaque_colour_has_the_channels_of_the_plain_colour() {
    for iteration_max in [0usize, 1, 2, 3, 10, 255, 256, 1000] {
        for count in 0..=iteration_max {
            let rgb = palette_rgb(count, iteration_max);
            let rgba = palette_rgba(count, iteration_max);
            assert_eq!((rgba.red, rgba.green, rgba.blue), (rgb.red, rgb.green, rgb.blue));
            assert_eq!(rgba.alpha, 255);
        }
    }
}

#[test]
fn only_counts_at_their_cap_are_black() {
    let black = Rgb { red: 0, green: 0, blue: 0 };
    for iteration_max in [1usize, 2, 3, 10, 255, 256, 1000] {
        for count in 0..=iteration_max {
            let colour = palette_rgb(count, iteration_max);
            assert_eq!(colour == black, count == iteration_max);
            if count < iteration_max {
                assert!(colour.blue >= 128);
                assert_eq!(colour.red, colour.green);
            }
        }
    }
}

#[test]
fn gradient_never_runs_backwards() {
    for iteration_max in [1usize, 7, 100, 1000] {
        let mut last = 0;
        for count in 0..iteration_max {
            let colour = palette_rgb(count, iteration_max);
            assert!(colour.red >= last);
            last = colour.red;
        }
    }
}

#[test]
fn palette_gives_the_same_colour_on_every_call() {
    for count in 0..=64usize {
        assert_eq!(palette_rgb(count, 64), palette_rgb(count, 64));
        assert_eq!(palette_rgba(count, 64), palette_rgba(count, 64));
    }
}
