use game::checked::{AddOne, SubOne};
use game::rng::xs_from_seed;
use game::tile::{xy_to_i, xy_to_i_usize, Coord, State, X, XY, Y};

#[test]
fn coord_increment_at_top_is_refused() {
    assert_eq!(Coord::C7.checked_add_one(), None);
}

#[test]
fn coord_decrement_at_bottom_is_refused() {
    assert_eq!(Coord::C0.checked_sub_one(), None);
}

#[test]
fn coord_steps_stay_in_range() {
    // Walk far past both ends; the value must never leave [0, 7].
    let mut c = Coord::C0;
    for _ in 0..20 {
        if let Some(next) = c.checked_add_one() {
            c = next;
        }
        assert!(c.to_count() < 8);
    }
    assert_eq!(c, Coord::C7);
    for _ in 0..20 {
        if let Some(prev) = c.checked_sub_one() {
            c = prev;
        }
        assert!(c.to_count() < 8);
    }
    assert_eq!(c, Coord::C0);
}

#[test]
fn coord_all_counts_up() {
    let all = Coord::all();
    assert_eq!(all.len(), 8);
    for (i, c) in all.iter().enumerate() {
        assert_eq!(c.to_count() as usize, i);
    }
}

#[test]
fn coord_try_from_count_round_trips() {
    for n in 0u8..8 {
        assert_eq!(Coord::try_from_count(n).unwrap().to_count(), n);
    }
    assert_eq!(Coord::try_from_count(8), None);
    assert_eq!(Coord::try_from_count(255), None);
}

#[test]
fn xy_all_is_row_major() {
    let all = XY::all();
    assert_eq!(all.len(), 64);
    assert_eq!(all[0], XY { x: X(Coord::C0), y: Y(Coord::C0) });
    assert_eq!(all[1], XY { x: X(Coord::C1), y: Y(Coord::C0) });
    assert_eq!(all[8], XY { x: X(Coord::C0), y: Y(Coord::C1) });
    for (i, xy) in all.iter().enumerate() {
        assert_eq!(xy_to_i(*xy), i);
    }
}

#[test]
fn xy_to_i_counts_rows_of_eight() {
    let xy = XY { x: X(Coord::C3), y: Y(Coord::C2) };
    assert_eq!(xy_to_i(xy), 19);
    assert_eq!(xy_to_i_usize((3, 2)), 19);
    assert_eq!(xy_to_i_usize((0, 0)), 0);
    assert_eq!(xy_to_i_usize((7, 7)), 63);
}

#[test]
fn tile_state_first_draws_from_zero_seed() {
    let mut rng = xs_from_seed([0; 16]);
    // First draw is even, second is odd.
    assert_eq!(State::from_rng(&mut rng), State::Unlit);
    assert_eq!(State::from_rng(&mut rng), State::Lit);
}

#[test]
fn tile_state_default_is_unlit() {
    assert_eq!(State::default(), State::Unlit);
}

#[test]
fn coord_from_rng_is_in_range() {
    let mut rng = xs_from_seed([3; 16]);
    for _ in 0..50 {
        let c = Coord::from_rng(&mut rng);
        assert!(c.to_count() < 8);
    }
}
