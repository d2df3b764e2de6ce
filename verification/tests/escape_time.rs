use mandelbrot_image::encode::pixels_to_rgbimage;
use mandelbrot_image::escape::escape_iterations;
use mandelbrot_image::grid::longer_side;
use mandelbrot_image::palette::Rgb;
use mandelbrot_image::pixel::calculate_pixel_data;

const BASE_SPAN: f64 = 4.0;

fn plane_step(width: usize, height: usize, scale_factor: f64) -> f64 {
    BASE_SPAN * scale_factor / longer_side(width, height) as f64
}

fn pixel_to_complex(
    x: usize,
    y: usize,
    width: usize,
    height: usize,
    scale_factor: f64,
    origin: (f64, f64),
) -> (f64, f64) {
    let step = plane_step(width, height, scale_factor);
    (
        origin.0 + (x as f64 - width as f64 / 2.0) * step,
        origin.1 - (y as f64 - height as f64 / 2.0) * step,
    )
}

fn has_escaped(z: (f64, f64)) -> bool {
    z.0 * z.0 + z.1 * z.1 > 4.0
}

fn count_of(c: (f64, f64), iteration_max: usize) -> usize {
    escape_iterations((0.0, 0.0), iteration_max, has_escaped, |z: (f64, f64)| {
        (z.0 * z.0 - z.1 * z.1 + c.0, 2.0 * z.0 * z.1 + c.1)
    })
}

#[test]
fn centre_of_the_set_never_escapes() {
    let (width, height, iteration_max) = (64, 32, 100);
    let pixels = calculate_pixel_data(width, height, iteration_max, |x, y| {
        count_of(pixel_to_complex(x, y, width, height, 1.0, (0.0, 0.0)), iteration_max)
    });
    assert_eq!(pixel_to_complex(width / 2, height / 2, width, height, 1.0, (0.0, 0.0)), (0.0, 0.0));
    let centre = pixels[(height / 2) * width + width / 2];
    assert_eq!(centre.count(), 100);
    assert!(centre.is_inside());
    let image = pixels_to_rgbimage(&pixels, width, height).unwrap();
    assert_eq!(image.get(width / 2, height / 2), Some(Rgb { red: 0, green: 0, blue: 0 }));
}

#[test]
fn point_two_escapes_at_once() {
    assert_eq!(count_of((2.0, 0.0), 50), 2);
    let pixels = calculate_pixel_data(1, 1, 50, |_, _| count_of((2.0, 0.0), 50));
    assert!(pixels[0].count() <= 3);
    assert_eq!(pixels[0].count(), 2);
    assert!(!pixels[0].is_inside());
}

#[test]
fn corner_of_the_image_escapes() {
    let (width, height, iteration_max) = (64, 32, 100);
    let pixels = calculate_pixel_data(width, height, iteration_max, |x, y| {
        count_of(pixel_to_complex(x, y, width, height, 1.0, (0.0, 0.0)), iteration_max)
    });
    assert_eq!(pixel_to_complex(0, 0, width, height, 1.0, (0.0, 0.0)), (-2.0, 1.0));
    assert_eq!(pixels[0].count(), 1);
    let image = pixels_to_rgbimage(&pixels, width, height).unwrap();
    assert_eq!(image.get(0, 0), Some(Rgb { red: 2, green: 2, blue: 129 }));
}

#[test]
fn cap_of_zero_evaluates_nothing() {
    assert_eq!(count_of((0.0, 0.0), 0), 0);
    assert_eq!(count_of((5.0, 5.0), 0), 0);
    let untouched = escape_iterations(
        (0.0f64, 0.0f64),
        0,
        |_| panic!("nothing is tested under a cap of zero"),
        |_| panic!("nothing is stepped under a cap of zero"),
    );
    assert_eq!(untouched, 0);
}

#[test]
fn boundary_of_the_escape_radius_has_not_escaped() {
    assert_eq!(count_of((-2.0, 0.0), 30), 30);
}

#[test]
fn counts_stay_within_the_cap_over_the_whole_image() {
    let (width, height, iteration_max) = (48, 36, 60);
    let pixels = calculate_pixel_data(width, height, iteration_max, |x, y| {
        count_of(pixel_to_complex(x, y, width, height, 0.75, (-0.5, 0.0)), iteration_max)
    });
    assert_eq!(pixels.len(), width * height);
    assert!(pixels.iter().all(|pixel| pixel.count() <= iteration_max));
    assert!(pixels.iter().any(|pixel| pixel.is_inside()));
    assert!(pixels.iter().any(|pixel| !pixel.is_inside()));
}

#[test]
fn each_position_holds_the_count_of_its_own_point() {
    let (width, height, iteration_max) = (20, 14, 80);
    let origin = (-0.75, 0.1);
    let pixels = calculate_pixel_data(width, height, iteration_max, |x, y| {
        count_of(pixel_to_complex(x, y, width, height, 0.5, origin), iteration_max)
    });
    for y in 0..height {
        for x in 0..width {
            let direct =
                count_of(pixel_to_complex(x, y, width, height, 0.5, origin), iteration_max);
            assert_eq!(pixels[y * width + x].count(), direct);
        }
    }
}

#[test]
fn repeated_generation_gives_the_same_counts() {
    let (width, height, iteration_max) = (30, 20, 120);
    let evaluate = |x: usize, y: usize| {
        count_of(pixel_to_complex(x, y, width, height, 1.0, (-0.5, 0.0)), iteration_max)
    };
    let first = calculate_pixel_data(width, height, iteration_max, evaluate);
    let second = calculate_pixel_data(width, height, iteration_max, evaluate);
    assert_eq!(first, second);
}

#[test]
fn square_image_has_square_pixels() {
    for side in [1usize, 2, 7, 100, 641] {
        for scale_factor in [0.25, 1.0, 3.5] {
            let origin = (0.3, -0.2);
            let at = pixel_to_complex(0, 0, side, side, scale_factor, origin);
            let right = pixel_to_complex(1, 0, side, side, scale_factor, origin);
            let below = pixel_to_complex(0, 1, side, side, scale_factor, origin);
            let step = plane_step(side, side, scale_factor);
            assert_eq!(step, 4.0 * scale_factor / side as f64);
            assert!(((right.0 - at.0) - step).abs() < 1e-12);
            assert!(((at.1 - below.1) - step).abs() < 1e-12);
            assert_eq!(right.1, at.1);
            assert_eq!(below.0, at.0);
        }
    }
}

#[test]
fn image_without_pixels_maps_without_dividing_by_zero() {
    let at = pixel_to_complex(0, 0, 0, 0, 1.0, (0.5, 0.25));
    assert_eq!(at, (0.5, 0.25));
    assert_eq!(plane_step(0, 0, 1.0), 4.0);
}

#[test]
fn origin_stays_at_zero_up_to_any_cap() {
    for iteration_max in [1usize, 2, 100, 1000] {
        assert_eq!(count_of((0.0, 0.0), iteration_max), iteration_max);
    }
}

#[test]
fn start_that_has_escaped_counts_zero() {
    let count = escape_iterations((3.0f64, 0.0f64), 10, has_escaped, |z| z);
    assert_eq!(count, 0);
}

#[test]
fn orbit_is_tested_before_each_step() {
    let tested = std::cell::RefCell::new(Vec::new());
    let count = escape_iterations(
        0u32,
        10,
        |z| {
            tested.borrow_mut().push(z);
            z >= 3
        },
        |z| z + 1,
    );
    assert_eq!(count, 3);
    assert_eq!(tested.into_inner(), vec![0, 1, 2, 3]);
}

#[test]
fn orbit_that_does_not_escape_takes_as_many_steps_as_the_cap() {
    let steps = std::cell::Cell::new(0);
    let count = escape_iterations(
        0u32,
        25,
        |_| false,
        |z| {
            steps.set(steps.get() + 1);
            z
        },
    );
    assert_eq!(count, 25);
    assert_eq!(steps.get(), 25);
}

#[test]
fn escape_at_the_cap_counts_as_not_escaped() {
    assert_eq!(escape_iterations(0u32, 3, |z| z >= 3, |z| z + 1), 3);
    assert_eq!(escape_iterations(0u32, 4, |z| z >= 3, |z| z + 1), 3);
    assert_eq!(escape_iterations(0u32, 2, |z| z >= 3, |z| z + 1), 2);
}
