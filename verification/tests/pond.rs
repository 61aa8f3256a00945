use ripples::pond::{shade_glyph, Pond};
use ripples::stencil::Stencil;

fn sum_minus_previous(neighbors: Vec<Option<i64>>, previous: i64) -> i64 {
    neighbors.iter().map(|n| n.unwrap_or(0)).sum::<i64>() - previous
}

#[test]
fn new_pond_is_empty_with_default_stencil() {
    let pond = Pond::new(0i64, -1i64);
    assert_eq!(pond.stencil(), Stencil::Laplace);
    assert_eq!(pond.value(0, 0), 0);
    assert_eq!(pond.previous_value(3, 4), 0);
}

#[test]
fn set_stencil_reports_a_change() {
    let mut pond = Pond::new(0i64, -1i64);
    assert!(pond.set_stencil(Stencil::Moore));
    assert_eq!(pond.stencil(), Stencil::Moore);
    assert!(!pond.set_stencil(Stencil::Moore));
    assert_eq!(pond.stencil(), Stencil::Moore);
}

#[test]
fn index_is_row_major() {
    let mut pond = Pond::new(0i64, -1i64);
    pond.resize(3, 2);
    assert_eq!(pond.index(0, 0), 0);
    assert_eq!(pond.index(2, 0), 2);
    assert_eq!(pond.index(2, 1), 5);
}

#[test]
fn droplet_sets_the_splash_inside_the_area_only() {
    let mut pond = Pond::new(0i64, -1i64);
    pond.resize(3, 2);
    pond.droplet(1, 1);
    assert_eq!(pond.value(1, 1), -1);
    assert_eq!(pond.value(0, 1), 0);
    assert_eq!(pond.value(1, 0), 0);
    assert_eq!(pond.previous_value(1, 1), 0);
    pond.droplet(3, 1);
    pond.droplet(0, 2);
    for y in 0..2 {
        for x in 0..3 {
            let expected = if (x, y) == (1, 1) { -1 } else { 0 };
            assert_eq!(pond.value(x, y), expected);
        }
    }
}

#[test]
fn values_outside_the_area_are_still_water() {
    let mut pond = Pond::new(7i64, -1i64);
    pond.resize(2, 2);
    pond.droplet(1, 1);
    assert_eq!(pond.value(2, 1), 7);
    assert_eq!(pond.value(1, 2), 7);
    assert_eq!(pond.value(usize::MAX, usize::MAX), 7);
}

#[test]
fn resize_to_the_same_size_keeps_the_ripples() {
    let mut pond = Pond::new(0i64, -1i64);
    pond.resize(3, 2);
    pond.droplet(1, 1);
    pond.resize(3, 2);
    assert_eq!(pond.value(1, 1), -1);
}

#[test]
fn resize_to_a_new_size_clears_the_ripples() {
    let mut pond = Pond::new(0i64, -1i64);
    pond.resize(3, 2);
    pond.droplet(1, 1);
    pond.resize(4, 2);
    assert_eq!(pond.value(1, 1), 0);
    assert_eq!(pond.index(0, 1), 4);
    pond.droplet(3, 1);
    assert_eq!(pond.value(3, 1), -1);
}

#[test]
fn resize_to_nothing_empties_the_area() {
    let mut pond = Pond::new(0i64, -1i64);
    pond.resize(3, 2);
    pond.resize(0, 5);
    pond.droplet(0, 0);
    assert_eq!(pond.value(0, 0), 0);
}

#[test]
fn neighborhood_reads_taps_in_order() {
    let mut pond = Pond::new(0i64, -1i64);
    pond.set_stencil(Stencil::VonNeumann);
    pond.resize(3, 2);
    pond.droplet(1, 1);
    assert_eq!(pond.neighborhood(0, 0), vec![None, None, Some(0), Some(0)]);
    assert_eq!(pond.neighborhood(1, 0), vec![None, Some(0), Some(-1), Some(0)]);
    assert_eq!(pond.neighborhood(1, 1), vec![Some(0), Some(0), Some(0), Some(0)]);
}

#[test]
fn tick_applies_the_step_and_keeps_the_current_values() {
    let mut pond = Pond::new(0i64, -1i64);
    pond.set_stencil(Stencil::VonNeumann);
    pond.resize(3, 2);
    pond.droplet(1, 1);
    pond.tick(sum_minus_previous);
    let expected = [[0, -1, 0], [-1, 0, -1]];
    for y in 0..2 {
        for x in 0..3 {
            assert_eq!(pond.value(x, y), expected[y][x]);
        }
    }
    assert_eq!(pond.previous_value(1, 1), -1);
    assert_eq!(pond.previous_value(0, 0), 0);
}

#[test]
fn tick_on_an_empty_area_does_nothing() {
    let mut pond = Pond::new(0i64, -1i64);
    pond.resize(0, 3);
    pond.tick(|_: Vec<Option<i64>>, _: i64| 5);
    assert_eq!(pond.value(0, 0), 0);
}

#[test]
fn tick_with_float_values_matches_the_wave_formula() {
    let mut pond = Pond::new(0.0f64, -1.0f64);
    pond.set_stencil(Stencil::VonNeumann);
    pond.resize(3, 3);
    pond.droplet(1, 1);
    let damping = 0.98;
    pond.tick(|neighbors: Vec<Option<f64>>, previous: f64| {
        let mut next = 0.0;
        for n in neighbors.into_iter().flatten() {
            next += n * 0.5;
        }
        (next - previous) * damping
    });
    assert_eq!(pond.value(1, 0), -0.5 * 0.98);
    assert_eq!(pond.value(1, 1), 0.0);
    assert_eq!(pond.value(0, 0), 0.0);
    assert_eq!(pond.previous_value(1, 1), -1.0);
}

#[test]
fn shade_glyph_clamps_to_the_ramp() {
    assert_eq!(shade_glyph(0), ' ');
    assert_eq!(shade_glyph(1), '\u{2591}');
    assert_eq!(shade_glyph(2), '\u{2592}');
    assert_eq!(shade_glyph(3), '\u{2593}');
    assert_eq!(shade_glyph(4), '\u{2588}');
    assert_eq!(shade_glyph(usize::MAX), '\u{2588}');
}
