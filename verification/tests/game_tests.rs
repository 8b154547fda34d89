use game::draw::{fresh_sizes, Command, DrawWH, DrawXY};
use game::tile::{Coord, State as TileState, X, XY, Y};
use game::{
    sizes, update, Board, ClearableStorage, Input, State, VecStorage, INPUT_DOWN_PRESSED,
    INPUT_INTERACT_PRESSED, INPUT_LEFT_PRESSED, INPUT_RIGHT_PRESSED, INPUT_UP_DOWN,
    INPUT_UP_PRESSED,
};

const WH: DrawWH = DrawWH { w: 100, h: 80 };

#[test]
fn from_seed_is_deterministic() {
    let seed = [42; 16];
    let a = State::from_seed(seed);
    let b = State::from_seed(seed);
    assert_eq!(a, b);
}

#[test]
fn zero_seed_equals_substitute_seed() {
    let sub = [0xed, 0x5e, 0xad, 0x0b, 0, 0, 0, 0, 0, 0, 0, 0, 0, 0, 0, 0];
    let a = Board::from_seed([0; 16]);
    let b = Board::from_seed(sub);
    assert_eq!(a, b);
}

#[test]
fn board_from_zero_seed_known_tiles() {
    let board = Board::from_seed([0; 16]);
    assert_eq!(board.tiles.len(), 64);
    let lit: Vec<bool> = board
        .tiles
        .iter()
        .map(|t| t.state == TileState::Lit)
        .collect();
    let expected_bits: [u8; 64] = [
        0, 1, 0, 0, 1, 0, 0, 1, 1, 1, 1, 0, 1, 0, 0, 1, 0, 0, 1, 0, 0, 0, 0, 0, 0, 0, 0, 1, 0, 0,
        1, 1, 0, 0, 1, 1, 1, 1, 0, 0, 0, 1, 0, 1, 1, 0, 0, 0, 1, 1, 1, 1, 1, 1, 0, 1, 1, 0, 0, 1,
        0, 1, 0, 1,
    ];
    let expected: Vec<bool> = expected_bits.iter().map(|b| *b == 1).collect();
    assert_eq!(lit, expected);
    assert_eq!(board.ui_pos, XY { x: X(Coord::C0), y: Y(Coord::C0) });
}

#[test]
fn update_fills_the_sink_with_65_commands() {
    let mut state = State::from_seed([0; 16]);
    let mut commands = VecStorage(Vec::new());
    update(&mut state, &mut commands, 0, WH);
    assert_eq!(commands.0.len(), 65);
    for cmd in commands.0.iter().take(64) {
        assert!(matches!(cmd, Command::Tile(_)));
    }
    assert!(matches!(commands.0[64], Command::Selectrum(_)));
}

#[test]
fn update_clears_what_the_sink_held() {
    let mut state = State::from_seed([9; 16]);
    let mut commands = VecStorage(Vec::new());
    update(&mut state, &mut commands, 0, WH);
    update(&mut state, &mut commands, 0, WH);
    assert_eq!(commands.0.len(), 65);
}

#[test]
fn update_draws_each_cell_once() {
    let mut state = State::from_seed([0; 16]);
    let mut commands = VecStorage(Vec::new());
    update(&mut state, &mut commands, 0, WH);
    // With these dimensions the tile side is 8 and the corner (18, 8), so
    // distinct cells land on distinct surface points.
    let mut points: Vec<(u32, u32)> = commands
        .0
        .iter()
        .take(64)
        .map(|cmd| match cmd {
            Command::Tile(spec) => (spec.xy.x, spec.xy.y),
            Command::Selectrum(_) => panic!("a tile command was expected"),
        })
        .collect();
    points.sort();
    points.dedup();
    assert_eq!(points.len(), 64);
    let mut expected: Vec<(u32, u32)> = (0..64u32).map(|i| (18 + 8 * (i % 8), 8 + 8 * (i / 8))).collect();
    expected.sort();
    assert_eq!(points, expected);
}

#[test]
fn first_frame_from_zero_seed_highlights_the_origin() {
    let mut state = State::from_seed([0; 16]);
    let mut commands = VecStorage(Vec::new());
    update(&mut state, &mut commands, 0, WH);
    assert_eq!(commands.0.len(), 65);
    // Cursor at (0, 0): the highlight sits on the play area's corner.
    assert_eq!(commands.0[64], Command::Selectrum(DrawXY { x: 18, y: 8 }));
}

#[test]
fn right_presses_saturate_at_the_edge() {
    let mut state = State::from_seed([0; 16]);
    let mut commands = VecStorage(Vec::new());
    update(&mut state, &mut commands, INPUT_RIGHT_PRESSED, WH);
    assert_eq!(state.board.ui_pos, XY { x: X(Coord::C1), y: Y(Coord::C0) });
    for _ in 0..7 {
        update(&mut state, &mut commands, INPUT_RIGHT_PRESSED, WH);
    }
    assert_eq!(state.board.ui_pos, XY { x: X(Coord::C7), y: Y(Coord::C0) });
    update(&mut state, &mut commands, INPUT_RIGHT_PRESSED, WH);
    assert_eq!(state.board.ui_pos, XY { x: X(Coord::C7), y: Y(Coord::C0) });
}

#[test]
fn up_press_at_the_top_leaves_the_cursor() {
    let mut state = State::from_seed([0; 16]);
    let mut commands = VecStorage(Vec::new());
    update(&mut state, &mut commands, INPUT_UP_PRESSED, WH);
    assert_eq!(state.board.ui_pos, XY { x: X(Coord::C0), y: Y(Coord::C0) });
}

#[test]
fn cursor_stays_on_the_grid_over_any_inputs() {
    let mut state = State::from_seed([5; 16]);
    let mut commands = VecStorage(Vec::new());
    for flags in 0u16..512 {
        update(&mut state, &mut commands, flags, WH);
        assert!(state.board.ui_pos.x.0.to_count() < 8);
        assert!(state.board.ui_pos.y.0.to_count() < 8);
    }
}

#[test]
fn interact_leaves_the_cursor() {
    let mut state = State::from_seed([0; 16]);
    let mut commands = VecStorage(Vec::new());
    update(&mut state, &mut commands, INPUT_DOWN_PRESSED, WH);
    let before = state.board.ui_pos;
    update(&mut state, &mut commands, INPUT_INTERACT_PRESSED, WH);
    assert_eq!(state.board.ui_pos, before);
}

#[test]
fn input_resolution_order() {
    assert_eq!(Input::from_flags(0), Input::NoChange);
    assert_eq!(Input::from_flags(INPUT_UP_PRESSED), Input::Up);
    assert_eq!(Input::from_flags(INPUT_DOWN_PRESSED), Input::Down);
    assert_eq!(Input::from_flags(INPUT_LEFT_PRESSED), Input::Left);
    assert_eq!(Input::from_flags(INPUT_RIGHT_PRESSED), Input::Right);
    assert_eq!(Input::from_flags(INPUT_INTERACT_PRESSED), Input::Interact);
    // First match wins.
    assert_eq!(
        Input::from_flags(INPUT_INTERACT_PRESSED | INPUT_UP_PRESSED),
        Input::Interact
    );
    assert_eq!(Input::from_flags(INPUT_UP_PRESSED | INPUT_DOWN_PRESSED), Input::Up);
    assert_eq!(
        Input::from_flags(INPUT_LEFT_PRESSED | INPUT_RIGHT_PRESSED),
        Input::Left
    );
    // Held bits play no role.
    assert_eq!(Input::from_flags(INPUT_UP_DOWN), Input::NoChange);
}

#[test]
fn layout_is_memoized_until_the_surface_changes() {
    let mut state = State::from_seed([0; 16]);
    let mut commands = VecStorage(Vec::new());
    update(&mut state, &mut commands, 0, WH);
    let first = sizes(&state);
    update(&mut state, &mut commands, 0, WH);
    assert_eq!(sizes(&state), first);
    let bigger = DrawWH { w: 640, h: 480 };
    update(&mut state, &mut commands, 0, bigger);
    let second = sizes(&state);
    assert_ne!(second, first);
    assert_eq!(second, fresh_sizes(bigger));
}

#[test]
fn fresh_sizes_centers_the_play_area() {
    let s = fresh_sizes(WH);
    assert_eq!(s.tile_side_length, 8);
    assert_eq!(s.play_xywh.x, 18);
    assert_eq!(s.play_xywh.y, 8);
    assert_eq!(s.play_xywh.w, 64);
    assert_eq!(s.play_xywh.h, 64);
    assert_eq!(s.draw_wh, WH);

    let b = fresh_sizes(DrawWH { w: 640, h: 480 });
    assert_eq!(b.draw_wh, DrawWH { w: 640, h: 480 });
    assert_eq!(b.tile_side_length, 48);
    assert_eq!(b.play_xywh.x, 128);
    assert_eq!(b.play_xywh.y, 48);
}

#[test]
fn a_degenerate_surface_is_harmless() {
    let mut state = State::from_seed([0; 16]);
    let mut commands = VecStorage(Vec::new());
    update(&mut state, &mut commands, 0, DrawWH { w: 0, h: 0 });
    assert_eq!(commands.0.len(), 65);
}

#[test]
fn storage_clear_and_push_behave() {
    let mut s: VecStorage<u8> = VecStorage(Vec::new());
    s.push(1);
    s.push(2);
    assert_eq!(s.0, vec![1, 2]);
    s.clear();
    assert!(s.0.is_empty());
}
