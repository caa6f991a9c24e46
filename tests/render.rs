use base64::Engine;
use julia_sets::color::{inside_pixel, opaque};
use julia_sets::escape::{EscapeControl, EscapeStep, PERIOD_CHECK};
use julia_sets::grid::{concat_rows, flatten_pixels, Rgba};
use julia_sets::image::{assemble_result, image_fits};
use julia_sets::newton::{NewtonControl, NewtonStep};
use julia_sets::JuliaResult;

fn decode(s: &str) -> Vec<u8> {
    base64::engine::general_purpose::STANDARD.decode(s).unwrap()
}

fn grid(width: usize, height: usize) -> Vec<Vec<Rgba>> {
    (0..height)
        .map(|py| {
            (0..width)
                .map(|px| [px as u8, py as u8, (px + py) as u8, 255])
                .collect()
        })
        .collect()
}

#[test]
fn opaque_sets_full_alpha() {
    assert_eq!(opaque([10, 20, 30]), [10, 20, 30, 255]);
}

#[test]
fn capped_count_gives_inside_color() {
    assert_eq!(inside_pixel(100, 100, [7, 8, 9]), Some([7, 8, 9, 255]));
    assert_eq!(inside_pixel(1, 1, [0, 0, 0]), Some([0, 0, 0, 255]));
}

#[test]
fn count_past_cap_gives_inside_color() {
    assert_eq!(inside_pixel(500, 100, [1, 2, 3]), Some([1, 2, 3, 255]));
}

#[test]
fn escaped_count_takes_gradient() {
    assert_eq!(inside_pixel(0, 100, [1, 2, 3]), None);
    assert_eq!(inside_pixel(99, 100, [1, 2, 3]), None);
}

#[test]
fn escape_reports_step_of_bailout() {
    let mut c = EscapeControl::new(100, PERIOD_CHECK);
    for _ in 0..7 {
        assert!(matches!(c.observe(false, false), EscapeStep::Continue { .. }));
    }
    assert_eq!(c.observe(true, false), EscapeStep::Escaped(7));
    assert_eq!(c.iteration, 7);
}

#[test]
fn escape_ignores_revisit_at_step_zero() {
    let mut c = EscapeControl::new(100, PERIOD_CHECK);
    assert_eq!(c.observe(false, true), EscapeStep::Continue { snapshot: false });
    assert_eq!(c.observe(false, true), EscapeStep::Periodic(100));
}

#[test]
fn escape_bailout_wins_over_revisit() {
    let mut c = EscapeControl::new(100, PERIOD_CHECK);
    c.observe(false, false);
    assert_eq!(c.observe(true, true), EscapeStep::Escaped(1));
}

#[test]
fn escape_snapshots_every_period() {
    let mut c = EscapeControl::new(1000, PERIOD_CHECK);
    let mut snapshots = Vec::new();
    for i in 0..60u32 {
        if let EscapeStep::Continue { snapshot: true } = c.observe(false, false) {
            snapshots.push(i);
        }
    }
    assert_eq!(snapshots, vec![19, 39, 59]);
}

#[test]
fn escape_never_exceeds_cap() {
    for max_iter in [1u32, 2, 20, 21, 257] {
        let mut c = EscapeControl::new(max_iter, PERIOD_CHECK);
        let mut steps = 0u32;
        while c.is_running() {
            assert!(matches!(c.observe(false, false), EscapeStep::Continue { .. }));
            steps += 1;
        }
        assert_eq!(steps, max_iter);
        assert!(c.iteration <= max_iter);
    }
}

#[test]
fn escape_zero_cap_takes_no_step() {
    let c = EscapeControl::new(0, PERIOD_CHECK);
    assert!(!c.is_running());
}

#[test]
fn newton_stall_keeps_count() {
    let mut c = NewtonControl::new(50);
    assert_eq!(c.observe(false, false), NewtonStep::Continue);
    assert_eq!(c.observe(false, false), NewtonStep::Continue);
    assert_eq!(c.observe(true, true), NewtonStep::Stalled(2));
}

#[test]
fn newton_converges_at_first_step() {
    let mut c = NewtonControl::new(50);
    assert_eq!(c.observe(false, true), NewtonStep::Converged(0));
}

#[test]
fn newton_never_exceeds_cap() {
    let mut c = NewtonControl::new(30);
    let mut steps = 0u32;
    while c.is_running() {
        assert_eq!(c.observe(false, false), NewtonStep::Continue);
        steps += 1;
    }
    assert_eq!(steps, 30);
    assert_eq!(c.iteration, 30);
}

#[test]
fn rows_join_top_row_first() {
    let rows: Vec<Vec<Rgba>> = vec![vec![[1, 1, 1, 1], [2, 2, 2, 2]], vec![[3, 3, 3, 3], [4, 4, 4, 4]]];
    assert_eq!(concat_rows(&rows), vec![[1, 1, 1, 1], [2, 2, 2, 2], [3, 3, 3, 3], [4, 4, 4, 4]]);
}

#[test]
fn rows_join_empty() {
    let rows: Vec<Vec<Rgba>> = Vec::new();
    assert!(concat_rows(&rows).is_empty());
}

#[test]
fn pixels_flatten_in_rgba_order() {
    let pixels: Vec<Rgba> = vec![[1, 2, 3, 4], [5, 6, 7, 8]];
    assert_eq!(flatten_pixels(&pixels), vec![1, 2, 3, 4, 5, 6, 7, 8]);
}

#[test]
fn image_fits_small_and_not_huge() {
    assert!(image_fits(100, 100));
    assert!(image_fits(0, 0));
    assert!(!image_fits(u32::MAX, u32::MAX));
}

#[test]
fn result_encodes_exact_text() {
    let rows: Vec<Vec<Rgba>> = vec![vec![[1, 2, 3, 4]]];
    let r = assemble_result(&rows, 1, 1, 500);
    assert_eq!(r.image_data, "AQIDBA==");
    assert_eq!(r.width, 1);
    assert_eq!(r.height, 1);
    assert_eq!(r.iterations_used, 500);
}

#[test]
fn buffer_size_is_width_height_four() {
    for (w, h) in [(1usize, 1usize), (3, 2), (7, 5), (100, 100)] {
        let r: JuliaResult = assemble_result(&grid(w, h), w as u32, h as u32, 100);
        assert_eq!(decode(&r.image_data).len(), w * h * 4);
        assert_eq!(r.image_data.len(), 4 * ((w * h * 4 + 2) / 3));
    }
}

#[test]
fn buffer_is_row_major_rgba() {
    let (w, h) = (3usize, 2usize);
    let bytes = decode(&assemble_result(&grid(w, h), w as u32, h as u32, 10).image_data);
    for py in 0..h {
        for px in 0..w {
            let i = 4 * (py * w + px);
            assert_eq!(&bytes[i..i + 4], &[px as u8, py as u8, (px + py) as u8, 255]);
        }
    }
}

#[test]
fn repeated_packaging_is_identical() {
    let a = assemble_result(&grid(9, 4), 9, 4, 64);
    let b = assemble_result(&grid(9, 4), 9, 4, 64);
    assert_eq!(a.image_data, b.image_data);
    assert_eq!(a.iterations_used, b.iterations_used);
}

#[test]
fn cap_is_echoed_not_measured() {
    let rows: Vec<Vec<Rgba>> = vec![vec![opaque([0, 0, 0])]];
    assert_eq!(assemble_result(&rows, 1, 1, 12345).iterations_used, 12345);
}
