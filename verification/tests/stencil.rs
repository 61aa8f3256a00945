use ripples::stencil::{Stencil, Tap};

fn tap(dx: isize, dy: isize, weight_percent: u32) -> Tap {
    Tap { dx, dy, weight_percent }
}

#[test]
fn default_stencil_is_laplace() {
    assert_eq!(Stencil::default(), Stencil::Laplace);
}

#[test]
fn von_neumann_taps_are_the_four_orthogonal_neighbors() {
    assert_eq!(
        Stencil::VonNeumann.taps(),
        vec![tap(0, -1, 50), tap(-1, 0, 50), tap(0, 1, 50), tap(1, 0, 50)]
    );
}

#[test]
fn moore_taps_are_the_eight_neighbors_equally() {
    let taps = Stencil::Moore.taps();
    assert_eq!(taps.len(), 8);
    assert!(taps.iter().all(|t| t.weight_percent == 25));
    assert_eq!(taps[0], tap(-1, -1, 25));
    assert_eq!(taps[7], tap(1, 1, 25));
}

#[test]
fn laplace_weights_orthogonal_neighbors_more_heavily() {
    let taps = Stencil::Laplace.taps();
    assert_eq!(taps.len(), 8);
    for t in &taps {
        if t.dx == 0 || t.dy == 0 {
            assert_eq!(t.weight_percent, 40);
        } else {
            assert_eq!(t.weight_percent, 10);
        }
    }
}

#[test]
fn base_weights_sum_to_two() {
    for s in [Stencil::VonNeumann, Stencil::Moore, Stencil::Laplace] {
        let total: u32 = s.taps().iter().map(|t| t.weight_percent).sum();
        assert_eq!(total, 200);
    }
}

#[test]
fn taps_are_point_symmetric() {
    for s in [Stencil::VonNeumann, Stencil::Moore, Stencil::Laplace] {
        let taps = s.taps();
        for t in &taps {
            assert!(taps.contains(&tap(-t.dx, -t.dy, t.weight_percent)));
        }
    }
}

#[test]
fn base_weights_as_floats_match_the_decimal_weights() {
    let weight = |t: &Tap| t.weight_percent as f64 / 100.0;
    assert_eq!(weight(&Stencil::VonNeumann.taps()[0]), 0.5);
    assert_eq!(weight(&Stencil::Moore.taps()[0]), 0.25);
    assert_eq!(weight(&Stencil::Laplace.taps()[0]), 0.1);
    assert_eq!(weight(&Stencil::Laplace.taps()[1]), 0.4);
}
