use vstd::prelude::*;

use crate::stencil::{Stencil, Tap};

verus! {

/// The largest width or height of the simulated area (a terminal size).
pub const MAX_SIDE: usize = 65535;

/// The number of shade characters.
pub const RAMP_LEN: usize = 5;

/// The shade characters, from the lowest wave level to the highest.
pub open spec fn ramp() -> Seq<char> {
    seq!['\u{20}', '\u{2591}', '\u{2592}', '\u{2593}', '\u{2588}']
}

/// The shade character for a wave level; levels above the top of the ramp
/// get its last character.
pub fn shade_glyph(level: usize) -> (glyph: char)
    ensures
        glyph == ramp()[if level < RAMP_LEN - 1 { level as int } else { RAMP_LEN - 1 }],
{
    let ramp: [char; 5] = ['\u{20}', '\u{2591}', '\u{2592}', '\u{2593}', '\u{2588}'];
    let clamped: usize = if level < RAMP_LEN - 1 { level } else { RAMP_LEN - 1 };
    ramp[clamped]
}

/// A rippling body of water on a grid of `width * height` cells.
///
/// The pond is generic over the number type `T` of its wave values. It keeps
/// the wave state of the current and of the previous simulation tick, row by
/// row; `rest` is the value of still water (and of every point outside the
/// simulated area), `splash` the value a droplet leaves where it falls.
pub struct Pond<T> {
    stencil: Stencil,
    rest: T,
    splash: T,
    width: usize,
    height: usize,
    current_buffer: Vec<T>,
    previous_buffer: Vec<T>,
}

/// The abstract state of a pond.
pub struct PondState<T> {
    pub stencil: Stencil,
    pub rest: T,
    pub splash: T,
    pub width: nat,
    pub height: nat,
    /// Wave values of the current tick, row by row.
    pub current: Seq<T>,
    /// Wave values of the previous tick, row by row.
    pub previous: Seq<T>,
}

/// `next` is a possible result of `step` on the neighbourhood `neighbors` of
/// a cell whose previous value is `previous`.
pub open spec fn steps_to<T, F: Fn(Vec<Option<T>>, T) -> T>(
    step: F,
    neighbors: Seq<Option<T>>,
    previous: T,
    next: T,
) -> bool {
    exists|v: Vec<Option<T>>| v@ == neighbors && #[trigger] call_ensures(step, (v, previous), next)
}

/// The offset `x + dx` as `usize::checked_add_signed` computes it.
pub open spec fn checked_offset(x: int, dx: int) -> Option<int> {
    if x + dx > usize::MAX || x + dx < 0 {
        None
    } else {
        Some(x + dx)
    }
}

/// `after` is a state that one tick with `step` can lead to from `before`:
/// an empty area stays as it is; otherwise every cell's next value is what
/// `step` makes of the cell's neighbourhood and previous value, and the
/// current values become the previous ones.
pub open spec fn ticked<T, F: Fn(Vec<Option<T>>, T) -> T>(
    before: PondState<T>,
    after: PondState<T>,
    step: F,
) -> bool {
    if before.width == 0 || before.height == 0 {
        after == before
    } else {
        &&& after.stencil == before.stencil
        &&& after.rest == before.rest
        &&& after.splash == before.splash
        &&& after.width == before.width
        &&& after.height == before.height
        &&& after.previous == before.current
        &&& after.current.len() == before.current.len()
        &&& forall|x: int, y: int|
            before.in_bounds(x, y) ==> steps_to(
                step,
                before.neighborhood(x, y),
                before.previous_at(x, y),
                #[trigger] after.value_at(x, y),
            )
    }
}

/// The state of a new pond: the default stencil and an empty area.
pub open spec fn initial<T>(rest: T, splash: T) -> PondState<T> {
    PondState {
        stencil: Stencil::Laplace,
        rest,
        splash,
        width: 0,
        height: 0,
        current: Seq::empty(),
        previous: Seq::empty(),
    }
}

impl<T> PondState<T> {
    /// Both buffers hold one value per cell, and the area fits a terminal.
    pub open spec fn wf(self) -> bool {
        &&& self.width <= MAX_SIDE
        &&& self.height <= MAX_SIDE
        &&& self.current.len() == self.width * self.height
        &&& self.previous.len() == self.width * self.height
    }

    /// The cell `(x, y)` lies in the simulated area.
    pub open spec fn in_bounds(self, x: int, y: int) -> bool {
        0 <= x < self.width && 0 <= y < self.height
    }

    /// The buffer position of the cell `(x, y)`.
    pub open spec fn cell(self, x: int, y: int) -> int {
        y * self.width + x
    }

    /// The current wave value at `(x, y)`, or `rest` outside the simulated area.
    pub open spec fn value_at(self, x: int, y: int) -> T {
        if self.in_bounds(x, y) {
            self.current[self.cell(x, y)]
        } else {
            self.rest
        }
    }

    /// The previous wave value at `(x, y)`, or `rest` outside the simulated area.
    pub open spec fn previous_at(self, x: int, y: int) -> T {
        if self.in_bounds(x, y) {
            self.previous[self.cell(x, y)]
        } else {
            self.rest
        }
    }

    /// What the tap `t` reads from the cell `(x, y)`: nothing when the
    /// neighbour's coordinates leave the range of `usize`, else its current value.
    pub open spec fn neighbor(self, x: int, y: int, t: Tap) -> Option<T> {
        match (checked_offset(x, t.dx as int), checked_offset(y, t.dy as int)) {
            (Some(nx), Some(ny)) => Some(self.value_at(nx, ny)),
            _ => None,
        }
    }

    /// What each tap of the stencil reads from the cell `(x, y)`, in tap order.
    pub open spec fn neighborhood(self, x: int, y: int) -> Seq<Option<T>> {
        self.stencil.tap_list().map_values(|t: Tap| self.neighbor(x, y, t))
    }

    /// The state after a droplet falls at `(x, y)`.
    pub open spec fn dropped(self, x: int, y: int) -> PondState<T> {
        if self.in_bounds(x, y) {
            PondState { current: self.current.update(self.cell(x, y), self.splash), ..self }
        } else {
            self
        }
    }

    /// The state after resizing to `width * height`: unchanged if the size is
    /// the same, else still water everywhere in the new area.
    pub open spec fn resized(self, width: nat, height: nat) -> PondState<T> {
        if width == self.width && height == self.height {
            self
        } else {
            PondState {
                width,
                height,
                current: Seq::new(width * height, |i: int| self.rest),
                previous: Seq::new(width * height, |i: int| self.rest),
                ..self
            }
        }
    }
}

proof fn lemma_cell_in_buffer(w: int, h: int, x: int, y: int)
    by (nonlinear_arith)
    requires
        0 <= x < w,
        0 <= y < h,
    ensures
        0 <= y * w + x < w * h,
{
    assert(y * w + x < (y + 1) * w);
    assert((y + 1) * w <= h * w);
}

proof fn lemma_cell_injective(w: int, x1: int, y1: int, x2: int, y2: int)
    by (nonlinear_arith)
    requires
        0 <= x1 < w,
        0 <= x2 < w,
        0 <= y1,
        0 <= y2,
        y1 * w + x1 == y2 * w + x2,
    ensures
        x1 == x2,
        y1 == y2,
{
    if y1 < y2 {
        assert(y2 * w >= (y1 + 1) * w);
    } else if y2 < y1 {
        assert(y1 * w >= (y2 + 1) * w);
    }
}

proof fn lemma_side_product(w: int, h: int)
    by (nonlinear_arith)
    requires
        0 <= w <= MAX_SIDE,
        0 <= h <= MAX_SIDE,
    ensures
        w * h <= MAX_SIDE * MAX_SIDE,
        MAX_SIDE * MAX_SIDE <= usize::MAX,
{
}

/// Distinct cells of the simulated area occupy distinct positions of the buffers.
pub proof fn lemma_cells_distinct<T>(s: PondState<T>, x1: int, y1: int, x2: int, y2: int)
    requires
        s.wf(),
        s.in_bounds(x1, y1),
        s.in_bounds(x2, y2),
        !(x1 == x2 && y1 == y2),
    ensures
        0 <= s.cell(x1, y1) < s.current.len(),
        0 <= s.cell(x2, y2) < s.current.len(),
        s.cell(x1, y1) != s.cell(x2, y2),
{
    lemma_cell_in_buffer(s.width as int, s.height as int, x1, y1);
    lemma_cell_in_buffer(s.width as int, s.height as int, x2, y2);
    if s.cell(x1, y1) == s.cell(x2, y2) {
        lemma_cell_injective(s.width as int, x1, y1, x2, y2);
    }
}

/// A droplet that falls inside the area sets its cell to `splash` and
/// leaves every other cell as it was; one that falls outside changes nothing.
pub proof fn lemma_droplet_then_value<T>(s: PondState<T>, x: int, y: int)
    requires
        s.wf(),
    ensures
        s.dropped(x, y).wf(),
        s.in_bounds(x, y) ==> s.dropped(x, y).value_at(x, y) == s.splash,
        forall|cx: int, cy: int|
            !(cx == x && cy == y) ==> #[trigger] s.dropped(x, y).value_at(cx, cy) == s.value_at(
                cx,
                cy,
            ),
        !s.in_bounds(x, y) ==> s.dropped(x, y) == s,
{
    if s.in_bounds(x, y) {
        lemma_cell_in_buffer(s.width as int, s.height as int, x, y);
        assert forall|cx: int, cy: int| !(cx == x && cy == y) implies #[trigger] s.dropped(
            x,
            y,
        ).value_at(cx, cy) == s.value_at(cx, cy) by {
            if s.in_bounds(cx, cy) {
                lemma_cells_distinct(s, cx, cy, x, y);
            }
        }
    }
}

/// A resize to a new size leaves still water everywhere in an area of the
/// new size; a resize to the current size changes nothing.
pub proof fn lemma_resize_clears<T>(s: PondState<T>, width: nat, height: nat)
    requires
        s.wf(),
        width <= MAX_SIDE,
        height <= MAX_SIDE,
    ensures
        s.resized(width, height).wf(),
        s.resized(width, height).width == width,
        s.resized(width, height).height == height,
        s.resized(width, height).stencil == s.stencil,
        width == s.width && height == s.height ==> s.resized(width, height) == s,
        !(width == s.width && height == s.height) ==> forall|x: int, y: int|
            #[trigger] s.resized(width, height).value_at(x, y) == s.rest,
        !(width == s.width && height == s.height) ==> forall|x: int, y: int|
            #[trigger] s.resized(width, height).previous_at(x, y) == s.rest,
{
    if !(width == s.width && height == s.height) {
        assert forall|x: int, y: int|
            #![trigger s.resized(width, height).value_at(x, y)]
            #![trigger s.resized(width, height).previous_at(x, y)]
            s.resized(width, height).value_at(x, y) == s.rest && s.resized(
                width,
                height,
            ).previous_at(x, y) == s.rest by {
            if s.resized(width, height).in_bounds(x, y) {
                lemma_cell_in_buffer(width as int, height as int, x, y);
            }
        }
    }
}

/// The `k`-th entry of the neighbourhood of `(x, y)` is what the `k`-th tap
/// reaches, column `x + dx` and row `y + dy`: nothing when either coordinate
/// is negative (or beyond the range of `usize`), the current value stored for
/// that cell (row-major) when it lies in the area, and still water when it
/// lies beyond the area.
pub proof fn lemma_neighborhood_reads_taps<T>(s: PondState<T>, x: int, y: int, k: int)
    requires
        s.wf(),
        0 <= x <= usize::MAX,
        0 <= y <= usize::MAX,
        0 <= k < s.stencil.tap_list().len(),
    ensures
        s.neighborhood(x, y).len() == s.stencil.tap_list().len(),
        ({
            let nx = x + s.stencil.tap_list()[k].dx;
            let ny = y + s.stencil.tap_list()[k].dy;
            &&& nx < 0 || ny < 0 ==> s.neighborhood(x, y)[k] is None
            &&& 0 <= nx < s.width && 0 <= ny < s.height ==> s.neighborhood(x, y)[k] == Some(
                s.current[ny * s.width + nx],
            )
            &&& 0 <= nx <= usize::MAX && 0 <= ny <= usize::MAX ==> s.neighborhood(x, y)[k] == Some(
                s.value_at(nx, ny),
            )
            &&& 0 <= nx <= usize::MAX && 0 <= ny <= usize::MAX && (nx >= s.width || ny >= s.height)
                ==> s.neighborhood(
                x,
                y,
            )[k] == Some(s.rest)
        }),
{
    crate::stencil::lemma_stencil_shape(s.stencil);
    let t = s.stencil.tap_list()[k];
    assert(crate::stencil::is_neighbor(t));
    assert(s.neighborhood(x, y)[k] == s.neighbor(x, y, t));
}

/// A droplet that falls inside the area writes `splash` to the current value
/// stored for its cell (row-major) and to nothing else: the previous values,
/// the size, the stencil and every other current value stay as they were.
/// One that falls outside changes nothing.
pub proof fn lemma_droplet_writes_one_current_cell<T>(s: PondState<T>, x: int, y: int)
    requires
        s.wf(),
    ensures
        s.dropped(x, y).previous == s.previous,
        s.dropped(x, y).width == s.width,
        s.dropped(x, y).height == s.height,
        s.dropped(x, y).stencil == s.stencil,
        s.dropped(x, y).rest == s.rest,
        s.dropped(x, y).splash == s.splash,
        s.dropped(x, y).current.len() == s.current.len(),
        forall|cx: int, cy: int|
            #[trigger] s.dropped(x, y).previous_at(cx, cy) == s.previous_at(cx, cy),
        0 <= x < s.width && 0 <= y < s.height ==> s.dropped(x, y).current[y * s.width + x]
            == s.splash,
        forall|i: int|
            0 <= i < s.current.len() && i != y * s.width + x ==> #[trigger] s.dropped(
                x,
                y,
            ).current[i] == s.current[i],
        !(0 <= x < s.width && 0 <= y < s.height) ==> s.dropped(x, y) == s,
{
    if s.in_bounds(x, y) {
        lemma_cell_in_buffer(s.width as int, s.height as int, x, y);
    }
}

/// Cells are stored row by row: the cell at column `x` and row `y` of a
/// well-formed state is position `y * width + x` of both buffers, and it is
/// what `value_at` and `previous_at` read; beyond the area both read `rest`.
pub proof fn lemma_values_row_major<T>(s: PondState<T>, x: int, y: int)
    requires
        s.wf(),
    ensures
        s.cell(x, y) == y * s.width + x,
        0 <= x < s.width && 0 <= y < s.height ==> 0 <= y * s.width + x < s.current.len()
            && s.value_at(x, y) == s.current[y * s.width + x] && s.previous_at(x, y)
            == s.previous[y * s.width + x],
        !(0 <= x < s.width && 0 <= y < s.height) ==> s.value_at(x, y) == s.rest
            && s.previous_at(x, y) == s.rest,
{
    if s.in_bounds(x, y) {
        lemma_cell_in_buffer(s.width as int, s.height as int, x, y);
    }
}

/// One tick on a non-empty well-formed state keeps the size, the stencil and
/// the values `rest` and `splash`, moves the current buffer into the previous
/// one, and fills position `y * width + x` of the new current buffer with a
/// result of `step` on the neighbourhood of `(x, y)` and on the value that
/// position held in the old previous buffer.
pub proof fn lemma_tick_row_major<T, F: Fn(Vec<Option<T>>, T) -> T>(
    before: PondState<T>,
    after: PondState<T>,
    step: F,
)
    requires
        before.wf(),
        before.width > 0,
        before.height > 0,
        ticked(before, after, step),
    ensures
        after.wf(),
        after.width == before.width,
        after.height == before.height,
        after.stencil == before.stencil,
        after.rest == before.rest,
        after.splash == before.splash,
        after.previous == before.current,
        forall|x: int, y: int|
            0 <= x < before.width && 0 <= y < before.height ==> steps_to(
                step,
                before.neighborhood(x, y),
                before.previous[y * before.width + x],
                #[trigger] after.current[y * before.width + x],
            ),
{
    assert forall|x: int, y: int|
        0 <= x < before.width && 0 <= y < before.height implies steps_to(
        step,
        before.neighborhood(x, y),
        before.previous[y * before.width + x],
        #[trigger] after.current[y * before.width + x],
    ) by {
        assert(before.in_bounds(x, y));
        assert(after.value_at(x, y) == after.current[y * before.width + x]);
    }
}

/// The ramp holds `RAMP_LEN` distinct shade characters, so every level up to
/// the top of the ramp gets a shade of its own.
pub proof fn lemma_ramp_distinct()
    ensures
        ramp().len() == RAMP_LEN,
        forall|i: int, j: int|
            0 <= i < RAMP_LEN && 0 <= j < RAMP_LEN && i != j ==> #[trigger] ramp()[i]
                != #[trigger] ramp()[j],
        ramp()[0] == ' ',
{
}

/// Resizing twice to the same size is the same as resizing once.
pub proof fn lemma_resize_idempotent<T>(s: PondState<T>, width: nat, height: nat)
    ensures
        s.resized(width, height).resized(width, height) == s.resized(width, height),
{
}

impl<T: Copy> View for Pond<T> {
    type V = PondState<T>;

    closed spec fn view(&self) -> PondState<T> {
        PondState {
            stencil: self.stencil,
            rest: self.rest,
            splash: self.splash,
            width: self.width as nat,
            height: self.height as nat,
            current: self.current_buffer@,
            previous: self.previous_buffer@,
        }
    }
}

impl<T: Copy> Pond<T> {
    /// The pond is well formed.
    pub open spec fn wf(&self) -> bool {
        self@.wf()
    }

    /// Constructs an empty pond with the default stencil.
    pub fn new(rest: T, splash: T) -> (pond: Self)
        ensures
            pond.wf(),
            pond@ == initial(rest, splash),
    {
        Pond {
            stencil: Stencil::Laplace,
            rest,
            splash,
            width: 0,
            height: 0,
            current_buffer: Vec::new(),
            previous_buffer: Vec::new(),
        }
    }

    /// Returns the stencil used for wave propagation.
    pub fn stencil(&self) -> (stencil: Stencil)
        ensures
            stencil == self@.stencil,
    {
        self.stencil
    }

    /// Sets the stencil used for wave propagation; returns whether it changed.
    pub fn set_stencil(&mut self, stencil: Stencil) -> (changed: bool)
        ensures
            changed == (stencil != old(self)@.stencil),
            final(self)@ == (PondState { stencil, ..old(self)@ }),
    {
        if stencil == self.stencil {
            return false;
        }
        self.stencil = stencil;
        true
    }

    /// Returns the buffer index for the given coordinates.
    pub fn index(&self, x: usize, y: usize) -> (i: usize)
        requires
            y * self@.width + x <= usize::MAX,
        ensures
            i == self@.cell(x as int, y as int),
    {
        y * self.width + x
    }

    /// Returns the current wave value at coordinates, or `rest` outside the simulated area.
    pub fn value(&self, x: usize, y: usize) -> (v: T)
        requires
            self.wf(),
        ensures
            v == self@.value_at(x as int, y as int),
    {
        if x >= self.width || y >= self.height {
            return self.rest;
        }
        proof {
            lemma_cell_in_buffer(self.width as int, self.height as int, x as int, y as int);
            lemma_side_product(self.width as int, self.height as int);
        }
        let i: usize = self.index(x, y);
        self.current_buffer[i]
    }

    /// Returns the previous wave value at coordinates, or `rest` outside the simulated area.
    pub fn previous_value(&self, x: usize, y: usize) -> (v: T)
        requires
            self.wf(),
        ensures
            v == self@.previous_at(x as int, y as int),
    {
        if x >= self.width || y >= self.height {
            return self.rest;
        }
        proof {
            lemma_cell_in_buffer(self.width as int, self.height as int, x as int, y as int);
            lemma_side_product(self.width as int, self.height as int);
        }
        let i: usize = self.index(x, y);
        self.previous_buffer[i]
    }

    /// Drops a droplet at the given terminal-cell coordinates to start a ripple.
    pub fn droplet(&mut self, x: u16, y: u16)
        requires
            old(self).wf(),
        ensures
            final(self).wf(),
            final(self)@ == old(self)@.dropped(x as int, y as int),
    {
        let x: usize = x as usize;
        let y: usize = y as usize;
        if x < self.width && y < self.height {
            proof {
                lemma_cell_in_buffer(self.width as int, self.height as int, x as int, y as int);
                lemma_side_product(self.width as int, self.height as int);
            }
            let index: usize = self.index(x, y);
            self.current_buffer.set(index, self.splash);
        }
    }

    /// Resizes the simulated area, clearing existing ripples if its size changes.
    pub fn resize(&mut self, width: u16, height: u16)
        requires
            old(self).wf(),
        ensures
            final(self).wf(),
            final(self)@ == old(self)@.resized(width as nat, height as nat),
    {
        let width: usize = width as usize;
        let height: usize = height as usize;
        if width == self.width && height == self.height {
            return;
        }
        proof {
            lemma_side_product(width as int, height as int);
        }
        let len: usize = width * height;
        let mut new_current_buffer: Vec<T> = Vec::new();
        let mut new_previous_buffer: Vec<T> = Vec::new();
        for i in 0..len
            invariant
                new_current_buffer@ =~= Seq::new(i as nat, |j: int| self.rest),
                new_previous_buffer@ =~= Seq::new(i as nat, |j: int| self.rest),
        {
            new_current_buffer.push(self.rest);
            new_previous_buffer.push(self.rest);
        }
        self.width = width;
        self.height = height;
        self.current_buffer = new_current_buffer;
        self.previous_buffer = new_previous_buffer;
    }

    /// What each tap of the stencil reads from the cell `(x, y)`, in tap
    /// order: `None` where a neighbour's coordinates leave the range of
    /// `usize`, else the neighbour's current value (`rest` outside the area).
    pub fn neighborhood(&self, x: usize, y: usize) -> (neighbors: Vec<Option<T>>)
        requires
            self.wf(),
        ensures
            neighbors@ == self@.neighborhood(x as int, y as int),
    {
        let taps = self.stencil.taps();
        let n: usize = taps.len();
        let mut neighbors: Vec<Option<T>> = Vec::new();
        for k in 0..n
            invariant
                n == taps.len(),
                taps@ == self@.stencil.tap_list(),
                self.wf(),
                neighbors.len() == k,
                forall|j: int|
                    0 <= j < k ==> #[trigger] neighbors@[j] == self@.neighbor(
                        x as int,
                        y as int,
                        taps@[j],
                    ),
        {
            let t = taps[k];
            let mut entry: Option<T> = None;
            if let Some(nx) = x.checked_add_signed(t.dx) {
                if let Some(ny) = y.checked_add_signed(t.dy) {
                    entry = Some(self.value(nx, ny));
                }
            }
            neighbors.push(entry);
        }
        assert(neighbors@ =~= self@.neighborhood(x as int, y as int));
        neighbors
    }

    /// Advances the ripple simulation by one frame.
    ///
    /// Every cell's next value is what `step` makes of the cell's
    /// neighbourhood and of its previous value; the current values become the
    /// previous ones. An empty area is left as it is.
    pub fn tick<F: Fn(Vec<Option<T>>, T) -> T>(&mut self, step: F)
        requires
            old(self).wf(),
            forall|v: Vec<Option<T>>, p: T| #[trigger] call_requires(step, (v, p)),
        ensures
            final(self).wf(),
            ticked(old(self)@, final(self)@, step),
    {
        if self.width == 0 || self.height == 0 {
            return;
        }
        let ghost start = self@;
        let width: usize = self.width;
        let height: usize = self.height;
        proof {
            lemma_side_product(width as int, height as int);
        }
        let mut y: usize = 0;
        while y < height
            invariant
                self.wf(),
                start.wf(),
                width == start.width,
                height == start.height,
                0 <= y <= height,
                self@.stencil == start.stencil,
                self@.rest == start.rest,
                self@.splash == start.splash,
                self@.width == start.width,
                self@.height == start.height,
                self@.current == start.current,
                forall|v: Vec<Option<T>>, p: T| #[trigger] call_requires(step, (v, p)),
                forall|cx: int, cy: int|
                    start.in_bounds(cx, cy) && cy < y ==> steps_to(
                        step,
                        start.neighborhood(cx, cy),
                        start.previous_at(cx, cy),
                        #[trigger] self@.previous[start.cell(cx, cy)],
                    ),
                forall|cx: int, cy: int|
                    start.in_bounds(cx, cy) && cy >= y ==> #[trigger] self@.previous[start.cell(
                        cx,
                        cy,
                    )] == start.previous[start.cell(cx, cy)],
            decreases height - y,
        {
            let mut x: usize = 0;
            while x < width
                invariant
                    self.wf(),
                    start.wf(),
                    width == start.width,
                    height == start.height,
                    0 <= x <= width,
                    0 <= y < height,
                    self@.stencil == start.stencil,
                    self@.rest == start.rest,
                    self@.splash == start.splash,
                    self@.width == start.width,
                    self@.height == start.height,
                    self@.current == start.current,
                    forall|v: Vec<Option<T>>, p: T| #[trigger] call_requires(step, (v, p)),
                    forall|cx: int, cy: int|
                        start.in_bounds(cx, cy) && (cy < y || (cy == y && cx < x)) ==> steps_to(
                            step,
                            start.neighborhood(cx, cy),
                            start.previous_at(cx, cy),
                            #[trigger] self@.previous[start.cell(cx, cy)],
                        ),
                    forall|cx: int, cy: int|
                        start.in_bounds(cx, cy) && !(cy < y || (cy == y && cx < x))
                            ==> #[trigger] self@.previous[start.cell(cx, cy)]
                            == start.previous[start.cell(cx, cy)],
                decreases width - x,
            {
                proof {
                    lemma_cell_in_buffer(width as int, height as int, x as int, y as int);
                    lemma_side_product(width as int, height as int);
                }
                let i: usize = self.index(x, y);
                let neighbors = self.neighborhood(x, y);
                let ghost passed = neighbors;
                assert(self@.neighborhood(x as int, y as int) =~= start.neighborhood(
                    x as int,
                    y as int,
                ));
                let previous = self.previous_buffer[i];
                let next = step(neighbors, previous);
                assert(steps_to(
                    step,
                    start.neighborhood(x as int, y as int),
                    start.previous_at(x as int, y as int),
                    next,
                )) by {
                    assert(call_ensures(step, (passed, previous), next));
                }
                let ghost before = self@.previous;
                self.previous_buffer.set(i, next);
                assert forall|cx: int, cy: int|
                    start.in_bounds(cx, cy) && !(cx == x && cy == y) implies #[trigger] self@.previous[start.cell(
                        cx,
                        cy,
                    )] == before[start.cell(cx, cy)] by {
                    lemma_cells_distinct(start, cx, cy, x as int, y as int);
                }
                x = x + 1;
            }
            y = y + 1;
        }
        std::mem::swap(&mut self.current_buffer, &mut self.previous_buffer);
        assert forall|x: int, y: int| start.in_bounds(x, y) implies steps_to(
            step,
            start.neighborhood(x, y),
            start.previous_at(x, y),
            #[trigger] self@.value_at(x, y),
        ) by {
            assert(self@.value_at(x, y) == self@.current[start.cell(x, y)]);
        }
    }
}

} // verus!
