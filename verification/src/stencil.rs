use vstd::prelude::*;

verus! {

/// The neighbourhood used for wave propagation.
#[derive(Clone, Copy, Debug, PartialEq, Eq, Structural)]
pub enum Stencil {
    /// Uses the four orthogonal neighbors equally.
    VonNeumann,
    /// Uses all eight surrounding neighbors equally.
    Moore,
    /// Uses an isotropic Laplacian, weighting orthogonal neighbors more heavily.
    Laplace,
}

/// One neighbour of a stencil: its offset from the cell and its base weight,
/// in hundredths (a weight of `0.4` is `40`).
#[derive(Clone, Copy, Debug, PartialEq, Eq, Structural)]
pub struct Tap {
    pub dx: isize,
    pub dy: isize,
    pub weight_percent: u32,
}

pub open spec fn tap(dx: int, dy: int, weight_percent: int) -> Tap {
    Tap { dx: dx as isize, dy: dy as isize, weight_percent: weight_percent as u32 }
}

/// The sum of the base weights of a list of taps, in hundredths.
pub open spec fn weight_total(taps: Seq<Tap>) -> int
    decreases taps.len(),
{
    if taps.len() == 0 {
        0
    } else {
        weight_total(taps.drop_last()) + taps.last().weight_percent
    }
}

/// A tap reaches one of the eight cells that surround the centre.
pub open spec fn is_neighbor(t: Tap) -> bool {
    &&& -1 <= t.dx <= 1
    &&& -1 <= t.dy <= 1
    &&& !(t.dx == 0 && t.dy == 0)
}

/// A tap reaches a cell that shares an edge with the centre.
pub open spec fn is_orthogonal(t: Tap) -> bool {
    is_neighbor(t) && (t.dx == 0 || t.dy == 0)
}

/// A tap reaches a cell that shares only a corner with the centre.
pub open spec fn is_diagonal(t: Tap) -> bool {
    is_neighbor(t) && t.dx != 0 && t.dy != 0
}

/// No two taps of the list reach the same cell.
pub open spec fn offsets_distinct(taps: Seq<Tap>) -> bool {
    forall|i: int, j: int|
        0 <= i < taps.len() && 0 <= j < taps.len() && i != j ==> !(#[trigger] taps[i].dx
            == #[trigger] taps[j].dx && taps[i].dy == taps[j].dy)
}

/// Every tap has its mirror image, with the same weight, in the list.
pub open spec fn point_symmetric(taps: Seq<Tap>) -> bool {
    forall|i: int|
        0 <= i < taps.len() ==> exists|j: int|
            0 <= j < taps.len() && #[trigger] taps[j] == tap(
                -#[trigger] taps[i].dx,
                -taps[i].dy,
                taps[i].weight_percent as int,
            )
}

/// Some tap of the list reaches the cell at offset `(dx, dy)`.
pub open spec fn has_offset(taps: Seq<Tap>, dx: int, dy: int) -> bool {
    exists|i: int| 0 <= i < taps.len() && #[trigger] taps[i].dx == dx && taps[i].dy == dy
}

/// All taps of the list carry the same weight.
pub open spec fn equal_weights(taps: Seq<Tap>) -> bool {
    forall|i: int, j: int|
        0 <= i < taps.len() && 0 <= j < taps.len() ==> #[trigger] taps[i].weight_percent
            == #[trigger] taps[j].weight_percent
}

impl Stencil {
    /// The taps of the stencil, in the order in which `taps` returns them.
    pub open spec fn tap_list(self) -> Seq<Tap> {
        match self {
            Stencil::VonNeumann => seq![tap(0, -1, 50), tap(-1, 0, 50), tap(0, 1, 50), tap(1, 0, 50)],
            Stencil::Moore => seq![
                tap(-1, -1, 25),
                tap(0, -1, 25),
                tap(1, -1, 25),
                tap(-1, 0, 25),
                tap(1, 0, 25),
                tap(-1, 1, 25),
                tap(0, 1, 25),
                tap(1, 1, 25),
            ],
            Stencil::Laplace => seq![
                tap(-1, -1, 10),
                tap(0, -1, 40),
                tap(1, -1, 10),
                tap(-1, 0, 40),
                tap(1, 0, 40),
                tap(-1, 1, 10),
                tap(0, 1, 40),
                tap(1, 1, 10),
            ],
        }
    }

    /// Returns the taps of the stencil.
    pub fn taps(self) -> (taps: Vec<Tap>)
        ensures
            taps@ == self.tap_list(),
    {
        let mut taps: Vec<Tap> = Vec::new();
        match self {
            Stencil::VonNeumann => {
                taps.push(Tap { dx: 0, dy: -1, weight_percent: 50 });
                taps.push(Tap { dx: -1, dy: 0, weight_percent: 50 });
                taps.push(Tap { dx: 0, dy: 1, weight_percent: 50 });
                taps.push(Tap { dx: 1, dy: 0, weight_percent: 50 });
            },
            Stencil::Moore => {
                taps.push(Tap { dx: -1, dy: -1, weight_percent: 25 });
                taps.push(Tap { dx: 0, dy: -1, weight_percent: 25 });
                taps.push(Tap { dx: 1, dy: -1, weight_percent: 25 });
                taps.push(Tap { dx: -1, dy: 0, weight_percent: 25 });
                taps.push(Tap { dx: 1, dy: 0, weight_percent: 25 });
                taps.push(Tap { dx: -1, dy: 1, weight_percent: 25 });
                taps.push(Tap { dx: 0, dy: 1, weight_percent: 25 });
                taps.push(Tap { dx: 1, dy: 1, weight_percent: 25 });
            },
            Stencil::Laplace => {
                taps.push(Tap { dx: -1, dy: -1, weight_percent: 10 });
                taps.push(Tap { dx: 0, dy: -1, weight_percent: 40 });
                taps.push(Tap { dx: 1, dy: -1, weight_percent: 10 });
                taps.push(Tap { dx: -1, dy: 0, weight_percent: 40 });
                taps.push(Tap { dx: 1, dy: 0, weight_percent: 40 });
                taps.push(Tap { dx: -1, dy: 1, weight_percent: 10 });
                taps.push(Tap { dx: 0, dy: 1, weight_percent: 40 });
                taps.push(Tap { dx: 1, dy: 1, weight_percent: 10 });
            },
        }
        assert(taps@ =~= self.tap_list());
        taps
    }
}

/// The base weights of every stencil add up to two.
pub proof fn lemma_weights_sum_to_two(s: Stencil)
    ensures
        weight_total(s.tap_list()) == 200,
{
    let t = s.tap_list();
    reveal_with_fuel(weight_total, 9);
    assert(t.drop_last().drop_last().drop_last().drop_last() =~= t.take(t.len() - 4));
    if t.len() == 8 {
        assert(t.take(4).drop_last().drop_last().drop_last().drop_last() =~= Seq::<Tap>::empty());
    } else {
        assert(t.take(0) =~= Seq::<Tap>::empty());
    }
}

/// Every tap of every stencil reaches one of the eight surrounding cells, no
/// two taps reach the same cell, and each tap's mirror image is a tap of the
/// same weight.
pub proof fn lemma_stencil_shape(s: Stencil)
    ensures
        forall|i: int| 0 <= i < s.tap_list().len() ==> is_neighbor(#[trigger] s.tap_list()[i]),
        offsets_distinct(s.tap_list()),
        point_symmetric(s.tap_list()),
{
    let t = s.tap_list();
    assert forall|i: int| 0 <= i < t.len() implies exists|j: int|
        0 <= j < t.len() && #[trigger] t[j] == tap(-#[trigger] t[i].dx, -t[i].dy, t[i].weight_percent as int)
    by {
        let j: int = if t.len() == 4 { (i + 2) % 4 } else { 7 - i };
        if t.len() == 4 {
            assert(0 <= j < 4);
        }
        assert(t[j].dx == -t[i].dx && t[j].dy == -t[i].dy);
        assert(t[j] == tap(-t[i].dx, -t[i].dy, t[i].weight_percent as int));
    }
}

/// The Von Neumann stencil uses the four orthogonal neighbours equally.
pub proof fn lemma_von_neumann_is_orthogonal()
    ensures
        Stencil::VonNeumann.tap_list().len() == 4,
        forall|i: int|
            0 <= i < 4 ==> is_orthogonal(#[trigger] Stencil::VonNeumann.tap_list()[i]),
        equal_weights(Stencil::VonNeumann.tap_list()),
{
}

/// The Moore stencil uses all eight surrounding neighbours equally.
pub proof fn lemma_moore_uses_all_neighbors()
    ensures
        Stencil::Moore.tap_list().len() == 8,
        forall|dx: int, dy: int|
            -1 <= dx <= 1 && -1 <= dy <= 1 && !(dx == 0 && dy == 0) ==> #[trigger] has_offset(
                Stencil::Moore.tap_list(),
                dx,
                dy,
            ),
        equal_weights(Stencil::Moore.tap_list()),
{
    let t = Stencil::Moore.tap_list();
    assert forall|dx: int, dy: int|
        -1 <= dx <= 1 && -1 <= dy <= 1 && !(dx == 0 && dy == 0) implies #[trigger] has_offset(
            t,
            dx,
            dy,
        ) by {
        let i: int = if dy == -1 { dx + 1 } else if dy == 0 { if dx == -1 { 3int } else { 4int } } else { dx + 6 };
        assert(t[i].dx == dx && t[i].dy == dy);
    }
}

/// The Laplace stencil reaches all eight neighbours and weights every
/// orthogonal neighbour more heavily than every diagonal one.
pub proof fn lemma_laplace_favours_orthogonal()
    ensures
        Stencil::Laplace.tap_list().len() == 8,
        forall|i: int, j: int|
            0 <= i < 8 && 0 <= j < 8 && is_orthogonal(#[trigger] Stencil::Laplace.tap_list()[i])
                && is_diagonal(#[trigger] Stencil::Laplace.tap_list()[j])
                ==> Stencil::Laplace.tap_list()[i].weight_percent
                > Stencil::Laplace.tap_list()[j].weight_percent,
{
}

impl Default for Stencil {
    fn default() -> (s: Self)
        ensures
            s == Stencil::Laplace,
    {
        Stencil::Laplace
    }
}

} // verus!
