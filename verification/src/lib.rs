use vstd::prelude::*;

pub mod checked;
pub mod draw;
pub mod rng;
pub mod tile;

use crate::checked::AddOne;
use crate::checked::SubOne;

verus! {

pub use crate::rng::Seed;
pub use crate::rng::Xs;
pub use crate::draw::DrawLength;
pub use crate::draw::DrawX;
pub use crate::draw::DrawY;
pub use crate::draw::DrawXY;
pub use crate::draw::DrawW;
pub use crate::draw::DrawH;
pub use crate::draw::DrawWH;
pub use crate::draw::TileState;

/// A caller-owned buffer the pipeline clears and refills once per frame.
pub trait ClearableStorage<A> {
    /// What the buffer holds, in the order it was pushed.
    spec fn contents(&self) -> Seq<A>;

    fn clear(&mut self)
        ensures
            final(self).contents() == Seq::<A>::empty(),
    ;

    fn push(&mut self, a: A)
        ensures
            final(self).contents() == old(self).contents().push(a),
    ;
}

/// A plain growable buffer, the simplest storage for draw commands.
#[derive(Clone, Debug, PartialEq)]
pub struct VecStorage<A>(pub Vec<A>);

impl<A> VecStorage<A> {
    /// An empty buffer.
    pub fn new() -> (r: VecStorage<A>)
        ensures
            r.contents() == Seq::<A>::empty(),
    {
        VecStorage(Vec::new())
    }
}

impl<A> ClearableStorage<A> for VecStorage<A> {
    open spec fn contents(&self) -> Seq<A> {
        self.0@
    }

    fn clear(&mut self) {
        self.0.clear();
    }

    fn push(&mut self, a: A) {
        self.0.push(a);
    }
}

/// The number of cells on the board.
pub const TILES_LENGTH: usize = 64;

/// One cell's content.
#[derive(Clone, Copy, Debug, PartialEq, Eq, Structural)]
pub struct Tile {
    pub state: tile::State,
}

impl Tile {
    /// Draws one tile.
    pub fn from_rng(rng: &mut Xs) -> (r: Tile)
        ensures
            *final(rng) == rng::spec_xorshift_state(*old(rng)),
            r == (Tile { state: tile::spec_state_from_rng(*old(rng)) }),
    {
        Tile { state: tile::State::from_rng(rng) }
    }
}

impl Default for Tile {
    /// A tile starts unlit.
    fn default() -> (r: Tile)
        ensures
            r == (Tile { state: tile::State::Unlit }),
    {
        Tile { state: tile::State::Unlit }
    }
}

/// The generator state after the given number of draws.
pub open spec fn spec_xs_after(xs: Xs, n: nat) -> Xs
    decreases n,
{
    if n == 0 {
        xs
    } else {
        rng::spec_xorshift_state(spec_xs_after(xs, (n - 1) as nat))
    }
}

/// The tile the given draw of a walk over the cells yields.
pub open spec fn spec_tile_at(xs: Xs, i: nat) -> Tile {
    Tile { state: tile::spec_state_from_rng(spec_xs_after(xs, i)) }
}

/// The 64 tiles a generator yields, one draw per cell in row-major order.
pub open spec fn spec_tiles(xs: Xs) -> Seq<Tile> {
    Seq::new(64, |i: int| spec_tile_at(xs, i as nat))
}

fn tiles_from_rng(rng: &mut Xs) -> (r: Vec<Tile>)
    ensures
        r@ == spec_tiles(*old(rng)),
        *final(rng) == spec_xs_after(*old(rng), 64),
{
    let ghost xs0 = *rng;
    let mut output: Vec<Tile> = Vec::new();
    for i in 0..TILES_LENGTH
        invariant
            output@.len() == i,
            *rng == spec_xs_after(xs0, i as nat),
            forall|j: int| 0 <= j < i ==> #[trigger] output@[j] == spec_tile_at(xs0, j as nat),
    {
        output.push(Tile::from_rng(rng));
    }
    proof {
        assert(output@ =~= spec_tiles(xs0));
    }
    output
}

/// The grid of 64 tiles, the cursor, and the generator state left over from
/// filling the grid.
#[derive(Clone, Debug, PartialEq)]
pub struct Board {
    pub tiles: Vec<Tile>,
    pub rng: Xs,
    pub ui_pos: tile::XY,
}

impl Board {
    /// A board holds exactly one tile per cell.
    pub open spec fn wf(self) -> bool {
        self.tiles@.len() == 64
    }

    /// A board freshly built from a seed: the grid drawn cell by cell in
    /// row-major order, the generator resting after those 64 draws, and the
    /// cursor in the top left corner.
    pub open spec fn spec_is_from_seed(self, s: Seq<u8>) -> bool {
        &&& self.tiles@ == spec_tiles(rng::spec_xs_from_seed(s))
        &&& self.rng == spec_xs_after(rng::spec_xs_from_seed(s), 64)
        &&& self.ui_pos == tile::spec_xy_origin()
    }

    /// Builds the board a seed determines.
    pub fn from_seed(seed: Seed) -> (r: Board)
        ensures
            r.wf(),
            r.spec_is_from_seed(seed@),
    {
        let mut rng = rng::xs_from_seed(seed);
        let tiles = tiles_from_rng(&mut rng);
        Board { tiles, rng, ui_pos: tile::XY::default() }
    }
}

impl Default for Board {
    /// An empty-handed board: every tile unlit, the generator at rest, the
    /// cursor in the top left corner.
    fn default() -> (r: Board)
        ensures
            r.wf(),
            forall|i: int|
                0 <= i < 64 ==> #[trigger] r.tiles@[i] == (Tile { state: tile::State::Unlit }),
            r.rng == (Xs { x0: 0, x1: 0, x2: 0, x3: 0 }),
            r.ui_pos == tile::spec_xy_origin(),
    {
        let mut tiles: Vec<Tile> = Vec::new();
        for i in 0..TILES_LENGTH
            invariant
                tiles@.len() == i,
                forall|j: int|
                    0 <= j < i ==> #[trigger] tiles@[j] == (Tile { state: tile::State::Unlit }),
        {
            tiles.push(Tile::default());
        }
        Board { tiles, rng: Xs::default(), ui_pos: tile::XY::default() }
    }
}

/// The whole simulation: one board and the cached layout geometry.
#[derive(Clone, Debug, PartialEq)]
pub struct State {
    pub sizes: draw::Sizes,
    pub board: Board,
}

impl State {
    /// A state is sound when its board is and its geometry stays on the
    /// surface's coordinate scale.
    pub open spec fn wf(self) -> bool {
        self.board.wf() && self.sizes.wf()
    }

    /// A state freshly built from a seed: the board the seed determines, and
    /// the geometry of a surface not yet seen.
    pub open spec fn spec_is_from_seed(self, s: Seq<u8>) -> bool {
        self.board.spec_is_from_seed(s) && self.sizes == draw::spec_default_sizes()
    }

    /// Builds the state a seed determines.
    pub fn from_seed(seed: Seed) -> (r: State)
        ensures
            r.wf(),
            r.spec_is_from_seed(seed@),
    {
        State { sizes: draw::Sizes::default(), board: Board::from_seed(seed) }
    }
}

impl Default for State {
    /// A state before any seed: an empty-handed board and the geometry of a
    /// surface not yet seen.
    fn default() -> (r: State)
        ensures
            r.wf(),
            r.sizes == draw::spec_default_sizes(),
            forall|i: int|
                0 <= i < 64 ==> #[trigger] r.board.tiles@[i] == (Tile {
                    state: tile::State::Unlit,
                }),
            r.board.ui_pos == tile::spec_xy_origin(),
    {
        State { sizes: draw::Sizes::default(), board: Board::default() }
    }
}

/// A read-only snapshot of the cached layout geometry.
pub fn sizes(state: &State) -> (r: draw::Sizes)
    ensures
        r == state.sizes,
{
    state.sizes
}

/// A per-frame input bitmask; see the INPUT_ constants for the bit layout.
pub type InputFlags = u16;

pub const INPUT_UP_PRESSED: InputFlags = 0b0000_0000_0000_0001;

pub const INPUT_DOWN_PRESSED: InputFlags = 0b0000_0000_0000_0010;

pub const INPUT_LEFT_PRESSED: InputFlags = 0b0000_0000_0000_0100;

pub const INPUT_RIGHT_PRESSED: InputFlags = 0b0000_0000_0000_1000;

pub const INPUT_UP_DOWN: InputFlags = 0b0000_0000_0001_0000;

pub const INPUT_DOWN_DOWN: InputFlags = 0b0000_0000_0010_0000;

pub const INPUT_LEFT_DOWN: InputFlags = 0b0000_0000_0100_0000;

pub const INPUT_RIGHT_DOWN: InputFlags = 0b0000_0000_1000_0000;

pub const INPUT_INTERACT_PRESSED: InputFlags = 0b0000_0001_0000_0000;

/// The one action a frame's input resolves to.
#[derive(Clone, Copy, Debug, PartialEq, Eq, Structural)]
pub enum Input {
    NoChange,
    Up,
    Down,
    Left,
    Right,
    Interact,
}

/// The action a bitmask resolves to: the first set bit wins, in the order
/// interact, up, down, left, right; all other bits, the held bits among them,
/// play no role.
pub open spec fn spec_input_from_flags(flags: InputFlags) -> Input {
    if flags & INPUT_INTERACT_PRESSED != 0 {
        Input::Interact
    } else if flags & INPUT_UP_PRESSED != 0 {
        Input::Up
    } else if flags & INPUT_DOWN_PRESSED != 0 {
        Input::Down
    } else if flags & INPUT_LEFT_PRESSED != 0 {
        Input::Left
    } else if flags & INPUT_RIGHT_PRESSED != 0 {
        Input::Right
    } else {
        Input::NoChange
    }
}

impl Input {
    /// Resolves a frame's bitmask to exactly one action.
    pub fn from_flags(flags: InputFlags) -> (r: Input)
        ensures
            r == spec_input_from_flags(flags),
    {
        if flags & INPUT_INTERACT_PRESSED != 0 {
            Input::Interact
        } else if flags & INPUT_UP_PRESSED != 0 {
            Input::Up
        } else if flags & INPUT_DOWN_PRESSED != 0 {
            Input::Down
        } else if flags & INPUT_LEFT_PRESSED != 0 {
            Input::Left
        } else if flags & INPUT_RIGHT_PRESSED != 0 {
            Input::Right
        } else {
            Input::NoChange
        }
    }
}

/// Where the cursor stands after one action: up and down step the vertical
/// coordinate, left and right the horizontal one, and a step refused at a
/// grid edge leaves the cursor where it was.
pub open spec fn spec_move_cursor(xy: tile::XY, input: Input) -> tile::XY {
    match input {
        Input::NoChange => xy,
        Input::Interact => xy,
        Input::Up => match xy.y.sub_one_spec() {
            Some(new_y) => tile::XY { y: new_y, ..xy },
            None => xy,
        },
        Input::Down => match xy.y.add_one_spec() {
            Some(new_y) => tile::XY { y: new_y, ..xy },
            None => xy,
        },
        Input::Left => match xy.x.sub_one_spec() {
            Some(new_x) => tile::XY { x: new_x, ..xy },
            None => xy,
        },
        Input::Right => match xy.x.add_one_spec() {
            Some(new_x) => tile::XY { x: new_x, ..xy },
            None => xy,
        },
    }
}

/// The frame's command sequence: one tile command per cell in row-major
/// order, then the cursor highlight — 65 commands in all.
pub open spec fn spec_commands(
    tiles: Seq<Tile>,
    layout: draw::Sizes,
    cursor: tile::XY,
) -> Seq<draw::Command> {
    Seq::new(
        65,
        |i: int|
            if i < 64 {
                draw::Command::Tile(
                    draw::TileSpec {
                        xy: draw::spec_tile_xy_to_draw(layout, tile::spec_i_to_xy(i)),
                        state: tiles[i].state,
                    },
                )
            } else {
                draw::Command::Selectrum(draw::spec_tile_xy_to_draw(layout, cursor))
            },
    )
}

/// Building from a seed is deterministic: two states built from the same
/// seed hold bit-identical tile grids, generator states and cursors, and the
/// same cached geometry.
pub proof fn lemma_from_seed_deterministic(a: State, b: State, s: Seq<u8>)
    requires
        a.spec_is_from_seed(s),
        b.spec_is_from_seed(s),
    ensures
        a.board.tiles@ == b.board.tiles@,
        a.board.rng == b.board.rng,
        a.board.ui_pos == b.board.ui_pos,
        a.sizes == b.sizes,
{
}

/// A state built from the all-zero seed equals one built from the fixed
/// substitute seed, board for board.
pub proof fn lemma_zero_seed_boards_equal(a: State, b: State)
    requires
        a.spec_is_from_seed(rng::spec_zero_seed()),
        b.spec_is_from_seed(rng::spec_substitute_seed()),
    ensures
        a.board.tiles@ == b.board.tiles@,
        a.board.rng == b.board.rng,
        a.board.ui_pos == b.board.ui_pos,
        a.sizes == b.sizes,
{
    rng::lemma_zero_seed_equivalence();
}

/// Wherever the cursor stands and whatever a frame's input holds, the cursor
/// the move yields stays within the grid on both axes; so it does over any
/// run of frames.
pub proof fn lemma_cursor_containment()
    ensures
        forall|xy: tile::XY, flags: InputFlags|
            {
                let moved = #[trigger] spec_move_cursor(xy, spec_input_from_flags(flags));
                0 <= moved.x.0.value() < 8 && 0 <= moved.y.0.value() < 8
            },
{
    tile::lemma_coord_value_bounds();
}

/// A frame's command sequence is complete: 65 commands, of which the first 64
/// draw one tile each — every cell exactly once, in row-major order — and the
/// last draws the cursor highlight.
pub proof fn lemma_commands_complete(tiles: Seq<Tile>, layout: draw::Sizes, cursor: tile::XY)
    requires
        tiles.len() == 64,
    ensures
        spec_commands(tiles, layout, cursor).len() == 65,
        forall|i: int|
            0 <= i < 64 ==> #[trigger] spec_commands(tiles, layout, cursor)[i]
                == draw::Command::Tile(
                draw::TileSpec {
                    xy: draw::spec_tile_xy_to_draw(layout, tile::spec_i_to_xy(i)),
                    state: tiles[i].state,
                },
            ),
        forall|i: int, j: int|
            0 <= i < 64 && 0 <= j < 64 && i != j ==> tile::spec_i_to_xy(i) != tile::spec_i_to_xy(
                j,
            ),
        spec_commands(tiles, layout, cursor)[64] == draw::Command::Selectrum(
            draw::spec_tile_xy_to_draw(layout, cursor),
        ),
{
    tile::lemma_row_major_walk_bijective();
}

/// Runs one frame: resolves the input, applies at most one cursor step,
/// recomputes the layout only when the surface dimensions changed, and
/// replaces the sink's contents with the frame's 65 draw commands.
pub fn update<C: ClearableStorage<draw::Command>>(
    state: &mut State,
    commands: &mut C,
    input_flags: InputFlags,
    draw_wh: DrawWH,
)
    requires
        old(state).wf(),
    ensures
        final(state).wf(),
        final(state).board.tiles == old(state).board.tiles,
        final(state).board.rng == old(state).board.rng,
        final(state).board.ui_pos == spec_move_cursor(
            old(state).board.ui_pos,
            spec_input_from_flags(input_flags),
        ),
        final(state).sizes == (if draw_wh == old(state).sizes.draw_wh {
            old(state).sizes
        } else {
            draw::spec_fresh_sizes(draw_wh)
        }),
        final(commands).contents() == spec_commands(
            final(state).board.tiles@,
            final(state).sizes,
            final(state).board.ui_pos,
        ),
{
    let input = Input::from_flags(input_flags);

    match input {
        Input::NoChange => {},
        Input::Up => {
            if let Some(new_y) = state.board.ui_pos.y.checked_sub_one() {
                state.board.ui_pos.y = new_y;
            }
        },
        Input::Down => {
            if let Some(new_y) = state.board.ui_pos.y.checked_add_one() {
                state.board.ui_pos.y = new_y;
            }
        },
        Input::Left => {
            if let Some(new_x) = state.board.ui_pos.x.checked_sub_one() {
                state.board.ui_pos.x = new_x;
            }
        },
        Input::Right => {
            if let Some(new_x) = state.board.ui_pos.x.checked_add_one() {
                state.board.ui_pos.x = new_x;
            }
        },
        Input::Interact => {},
    }

    if draw_wh != state.sizes.draw_wh {
        state.sizes = draw::fresh_sizes(draw_wh);
    }

    commands.clear();

    let ghost goal = spec_commands(state.board.tiles@, state.sizes, state.board.ui_pos);

    let xys = tile::XY::all();
    for i in 0..TILES_LENGTH
        invariant
            state.wf(),
            xys@.len() == 64,
            forall|j: int| 0 <= j < 64 ==> #[trigger] xys@[j] == tile::spec_i_to_xy(j),
            goal == spec_commands(state.board.tiles@, state.sizes, state.board.ui_pos),
            commands.contents() == goal.take(i as int),
    {
        let xy = xys[i];
        proof {
            tile::lemma_row_major_walk_bijective();
        }
        let t = state.board.tiles[tile::xy_to_i(xy)];
        let cmd = draw::Command::Tile(
            draw::TileSpec { xy: draw::tile_xy_to_draw(&state.sizes, xy), state: t.state },
        );
        commands.push(cmd);
        proof {
            assert(commands.contents() =~= goal.take(i + 1));
        }
    }

    let sel = draw::Command::Selectrum(draw::tile_xy_to_draw(&state.sizes, state.board.ui_pos));
    commands.push(sel);
    proof {
        assert(commands.contents() =~= goal);
    }
}

} // verus!
