use vstd::prelude::*;
use crate::checked::AddOne;
use crate::checked::SubOne;
use crate::rng::Xs;
use crate::rng::spec_xorshift_state;
use crate::rng::spec_xs_u32;
use crate::rng::xs_u32;

verus! {

/// The numeric form of a coordinate.
pub type Count = u8;

/// The number of coordinate values along one axis of the grid.
pub const COORD_COUNT: Count = 8;

/// The numeric value of the largest coordinate.
pub const COORD_MAX_INDEX: Count = 7;

/// One of eight ordered positions along a grid axis. No operation yields a
/// position outside this range: the type has no other values.
#[derive(Clone, Copy, Debug, PartialEq, Eq, PartialOrd, Ord, Structural)]
pub enum Coord {
    C0,
    C1,
    C2,
    C3,
    C4,
    C5,
    C6,
    C7,
}

/// The coordinate with the given numeric value, counted from zero; the
/// largest coordinate for values out of range.
pub open spec fn spec_coord_of(n: int) -> Coord {
    if n == 0 {
        Coord::C0
    } else if n == 1 {
        Coord::C1
    } else if n == 2 {
        Coord::C2
    } else if n == 3 {
        Coord::C3
    } else if n == 4 {
        Coord::C4
    } else if n == 5 {
        Coord::C5
    } else if n == 6 {
        Coord::C6
    } else {
        Coord::C7
    }
}

impl Coord {
    /// The numeric value, in [0, 8).
    pub open spec fn value(self) -> int {
        match self {
            Coord::C0 => 0,
            Coord::C1 => 1,
            Coord::C2 => 2,
            Coord::C3 => 3,
            Coord::C4 => 4,
            Coord::C5 => 5,
            Coord::C6 => 6,
            Coord::C7 => 7,
        }
    }

    /// The coordinate with the given numeric value, if that value is in range.
    pub fn try_from_count(n: Count) -> (r: Option<Coord>)
        ensures
            n < 8 ==> r == Some(spec_coord_of(n as int)),
            n >= 8 ==> r is None,
    {
        match n {
            0 => Some(Coord::C0),
            1 => Some(Coord::C1),
            2 => Some(Coord::C2),
            3 => Some(Coord::C3),
            4 => Some(Coord::C4),
            5 => Some(Coord::C5),
            6 => Some(Coord::C6),
            7 => Some(Coord::C7),
            _ => None,
        }
    }

    /// The numeric value, in [0, 8).
    pub fn to_count(self) -> (r: Count)
        ensures
            r as int == self.value(),
    {
        match self {
            Coord::C0 => 0,
            Coord::C1 => 1,
            Coord::C2 => 2,
            Coord::C3 => 3,
            Coord::C4 => 4,
            Coord::C5 => 5,
            Coord::C6 => 6,
            Coord::C7 => 7,
        }
    }

    /// All eight coordinates, in increasing order.
    pub fn all() -> (r: Vec<Coord>)
        ensures
            r@.len() == 8,
            forall|i: int| 0 <= i < 8 ==> #[trigger] r@[i] == spec_coord_of(i),
    {
        let mut v: Vec<Coord> = Vec::new();
        v.push(Coord::C0);
        v.push(Coord::C1);
        v.push(Coord::C2);
        v.push(Coord::C3);
        v.push(Coord::C4);
        v.push(Coord::C5);
        v.push(Coord::C6);
        v.push(Coord::C7);
        v
    }

    /// Draws one coordinate, uniform over the eight values up to the accepted
    /// modulo bias.
    pub fn from_rng(rng: &mut Xs) -> (r: Coord)
        ensures
            *final(rng) == spec_xorshift_state(*old(rng)),
            r == spec_coord_of(spec_xs_u32(*old(rng), 0, 8)),
    {
        let d = xs_u32(rng, 0, 8);
        match Coord::try_from_count(d as u8) {
            Some(c) => c,
            None => Coord::C7,
        }
    }
}

/// The numeric value of every coordinate lies in [0, 8); the conversions
/// between coordinates and their values invert one another.
pub proof fn lemma_coord_value_bounds()
    ensures
        forall|c: Coord| 0 <= #[trigger] c.value() < 8,
        forall|c: Coord| spec_coord_of(#[trigger] c.value()) == c,
        forall|n: int| 0 <= n < 8 ==> (#[trigger] spec_coord_of(n)).value() == n,
{
}

impl AddOne for Coord {
    open spec fn add_one_spec(&self) -> Option<Coord> {
        if self.value() < 7 {
            Some(spec_coord_of(self.value() + 1))
        } else {
            None
        }
    }

    fn checked_add_one(&self) -> (r: Option<Coord>) {
        match self {
            Coord::C0 => Some(Coord::C1),
            Coord::C1 => Some(Coord::C2),
            Coord::C2 => Some(Coord::C3),
            Coord::C3 => Some(Coord::C4),
            Coord::C4 => Some(Coord::C5),
            Coord::C5 => Some(Coord::C6),
            Coord::C6 => Some(Coord::C7),
            Coord::C7 => None,
        }
    }
}

impl SubOne for Coord {
    open spec fn sub_one_spec(&self) -> Option<Coord> {
        if self.value() > 0 {
            Some(spec_coord_of(self.value() - 1))
        } else {
            None
        }
    }

    fn checked_sub_one(&self) -> (r: Option<Coord>) {
        match self {
            Coord::C0 => None,
            Coord::C1 => Some(Coord::C0),
            Coord::C2 => Some(Coord::C1),
            Coord::C3 => Some(Coord::C2),
            Coord::C4 => Some(Coord::C3),
            Coord::C5 => Some(Coord::C4),
            Coord::C6 => Some(Coord::C5),
            Coord::C7 => Some(Coord::C6),
        }
    }
}

/// Stepping a coordinate is refused exactly at the ends of the range, and a
/// step that is taken lands next to where it started; so no chain of checked
/// steps ever leaves [0, 7].
pub proof fn lemma_coord_checked_step_bounds()
    ensures
        forall|c: Coord| (#[trigger] c.add_one_spec()) is None <==> c.value() == 7,
        forall|c: Coord| (#[trigger] c.sub_one_spec()) is None <==> c.value() == 0,
        forall|c: Coord|
            c.value() < 7 ==> ((#[trigger] c.add_one_spec()) matches Some(d) && d.value()
                == c.value() + 1),
        forall|c: Coord|
            c.value() > 0 ==> ((#[trigger] c.sub_one_spec()) matches Some(d) && d.value()
                == c.value() - 1),
{
    lemma_coord_value_bounds();
}

impl Default for Coord {
    /// A coordinate starts at the low end of its axis.
    fn default() -> (r: Coord)
        ensures
            r == Coord::C0,
    {
        Coord::C0
    }
}

/// A position along the horizontal axis.
#[derive(Clone, Copy, Debug, PartialEq, Eq, PartialOrd, Ord, Structural)]
pub struct X(pub Coord);

/// A position along the vertical axis.
#[derive(Clone, Copy, Debug, PartialEq, Eq, PartialOrd, Ord, Structural)]
pub struct Y(pub Coord);

impl AddOne for X {
    open spec fn add_one_spec(&self) -> Option<X> {
        match self.0.add_one_spec() {
            Some(c) => Some(X(c)),
            None => None,
        }
    }

    fn checked_add_one(&self) -> (r: Option<X>) {
        match self.0.checked_add_one() {
            Some(c) => Some(X(c)),
            None => None,
        }
    }
}

impl SubOne for X {
    open spec fn sub_one_spec(&self) -> Option<X> {
        match self.0.sub_one_spec() {
            Some(c) => Some(X(c)),
            None => None,
        }
    }

    fn checked_sub_one(&self) -> (r: Option<X>) {
        match self.0.checked_sub_one() {
            Some(c) => Some(X(c)),
            None => None,
        }
    }
}

impl AddOne for Y {
    open spec fn add_one_spec(&self) -> Option<Y> {
        match self.0.add_one_spec() {
            Some(c) => Some(Y(c)),
            None => None,
        }
    }

    fn checked_add_one(&self) -> (r: Option<Y>) {
        match self.0.checked_add_one() {
            Some(c) => Some(Y(c)),
            None => None,
        }
    }
}

impl SubOne for Y {
    open spec fn sub_one_spec(&self) -> Option<Y> {
        match self.0.sub_one_spec() {
            Some(c) => Some(Y(c)),
            None => None,
        }
    }

    fn checked_sub_one(&self) -> (r: Option<Y>) {
        match self.0.checked_sub_one() {
            Some(c) => Some(Y(c)),
            None => None,
        }
    }
}

impl X {
    /// Draws one horizontal position.
    pub fn from_rng(rng: &mut Xs) -> (r: X)
        ensures
            *final(rng) == spec_xorshift_state(*old(rng)),
            r == X(spec_coord_of(spec_xs_u32(*old(rng), 0, 8))),
    {
        X(Coord::from_rng(rng))
    }
}

impl Y {
    /// Draws one vertical position.
    pub fn from_rng(rng: &mut Xs) -> (r: Y)
        ensures
            *final(rng) == spec_xorshift_state(*old(rng)),
            r == Y(spec_coord_of(spec_xs_u32(*old(rng), 0, 8))),
    {
        Y(Coord::from_rng(rng))
    }
}

impl Default for X {
    /// A horizontal position starts at the left edge.
    fn default() -> (r: X)
        ensures
            r == X(Coord::C0),
    {
        X(Coord::C0)
    }
}

impl Default for Y {
    /// A vertical position starts at the top edge.
    fn default() -> (r: Y)
        ensures
            r == Y(Coord::C0),
    {
        Y(Coord::C0)
    }
}

/// The address of one grid cell.
#[derive(Clone, Copy, Debug, PartialEq, Eq, Structural)]
pub struct XY {
    pub x: X,
    pub y: Y,
}

/// The cell in the top left corner, where the cursor starts.
pub open spec fn spec_xy_origin() -> XY {
    XY { x: X(Coord::C0), y: Y(Coord::C0) }
}

impl Default for XY {
    /// A cell address starts in the top left corner.
    fn default() -> (r: XY)
        ensures
            r == spec_xy_origin(),
    {
        XY { x: X(Coord::C0), y: Y(Coord::C0) }
    }
}

/// The cell a row-major walk of the grid visits at the given place: y grows
/// in the outer loop, x in the inner one.
pub open spec fn spec_i_to_xy(i: int) -> XY {
    XY { x: X(spec_coord_of(i % 8)), y: Y(spec_coord_of(i / 8)) }
}

impl XY {
    /// All 64 cells, in row-major order.
    pub fn all() -> (r: Vec<XY>)
        ensures
            r@.len() == 64,
            forall|i: int| 0 <= i < 64 ==> #[trigger] r@[i] == spec_i_to_xy(i),
    {
        let ys = Coord::all();
        let xs = Coord::all();
        let mut v: Vec<XY> = Vec::new();
        for yi in 0..8usize
            invariant
                ys@.len() == 8,
                xs@.len() == 8,
                forall|i: int| 0 <= i < 8 ==> #[trigger] ys@[i] == spec_coord_of(i),
                forall|i: int| 0 <= i < 8 ==> #[trigger] xs@[i] == spec_coord_of(i),
                v@.len() == yi * 8,
                forall|i: int| 0 <= i < yi * 8 ==> #[trigger] v@[i] == spec_i_to_xy(i),
        {
            for xi in 0..8usize
                invariant
                    ys@.len() == 8,
                    xs@.len() == 8,
                    forall|i: int| 0 <= i < 8 ==> #[trigger] ys@[i] == spec_coord_of(i),
                    forall|i: int| 0 <= i < 8 ==> #[trigger] xs@[i] == spec_coord_of(i),
                    yi < 8,
                    v@.len() == yi * 8 + xi,
                    forall|i: int| 0 <= i < yi * 8 + xi ==> #[trigger] v@[i] == spec_i_to_xy(i),
            {
                v.push(XY { x: X(xs[xi]), y: Y(ys[yi]) });
                proof {
                    let i = yi * 8 + xi;
                    assert(i % 8 == xi && i / 8 == yi) by (nonlinear_arith)
                        requires
                            0 <= xi < 8 && 0 <= yi < 8 && i == yi * 8 + xi,
                    ;
                }
            }
        }
        v
    }
}

/// The place a cell holds in the row-major walk.
pub open spec fn spec_xy_to_i(xy: XY) -> int {
    xy.y.0.value() * 8 + xy.x.0.value()
}

/// The row-major place of a cell, as an index into the tile array.
pub fn xy_to_i(xy: XY) -> (r: usize)
    ensures
        r == spec_xy_to_i(xy),
        r < 64,
{
    xy_to_i_usize((xy.x.0.to_count() as usize, xy.y.0.to_count() as usize))
}

/// The row-major place of a cell given as plain numbers: y rows of eight,
/// then x.
pub fn xy_to_i_usize(xy: (usize, usize)) -> (r: usize)
    requires
        xy.1 * 8 + xy.0 <= usize::MAX,
    ensures
        r == xy.1 * 8 + xy.0,
{
    xy.1 * 8 + xy.0
}

/// Distinct places in the row-major walk name distinct cells, and the walk
/// inverts the cell-to-index map: every cell is visited exactly once.
pub proof fn lemma_row_major_walk_bijective()
    ensures
        forall|i: int| 0 <= i < 64 ==> spec_xy_to_i(#[trigger] spec_i_to_xy(i)) == i,
        forall|i: int, j: int|
            0 <= i < 64 && 0 <= j < 64 && i != j ==> spec_i_to_xy(i) != spec_i_to_xy(j),
{
    lemma_coord_value_bounds();
    assert forall|i: int| 0 <= i < 64 implies spec_xy_to_i(#[trigger] spec_i_to_xy(i)) == i by {
        assert((i / 8) * 8 + i % 8 == i) by (nonlinear_arith)
            requires
                0 <= i < 64,
        ;
        assert(0 <= i % 8 < 8 && 0 <= i / 8 < 8) by (nonlinear_arith)
            requires
                0 <= i < 64,
        ;
    }
}

/// One binary tile state.
#[derive(Clone, Copy, Debug, PartialEq, Eq, Structural)]
pub enum State {
    Unlit,
    Lit,
}

/// The tile state one draw yields: a zero draw leaves the tile unlit, any
/// other lights it.
pub open spec fn spec_state_from_rng(xs: Xs) -> State {
    if spec_xs_u32(xs, 0, 2) == 0 {
        State::Unlit
    } else {
        State::Lit
    }
}

impl State {
    /// Draws one tile state.
    pub fn from_rng(rng: &mut Xs) -> (r: State)
        ensures
            *final(rng) == spec_xorshift_state(*old(rng)),
            r == spec_state_from_rng(*old(rng)),
    {
        match xs_u32(rng, 0, 2) {
            0 => State::Unlit,
            _ => State::Lit,
        }
    }
}

impl Default for State {
    /// A tile starts unlit.
    fn default() -> (r: State)
        ensures
            r == State::Unlit,
    {
        State::Unlit
    }
}

} // verus!
