use wireworld::table::{Cell, Direction, OutOfRange, Position, Table};

fn pos(row: usize, column: usize) -> Position {
    Position { row, column }
}

#[test]
fn position_from_pair_and_array() {
    assert_eq!(Position::from((2, 3)), pos(2, 3));
    assert_eq!(Position::from([4, 5]), pos(4, 5));
}

#[test]
fn new_grid_is_all_void() {
    let table = Table::new(3, 4);
    assert_eq!(table.get_size(), (3, 4));
    for row in 0..3 {
        for column in 0..4 {
            assert_eq!(table.get(pos(row, column)), Cell::Void);
        }
    }
}

#[test]
fn new_smallest_grid_is_void() {
    let table = Table::new(1, 1);
    assert_eq!(table.get_size(), (1, 1));
    assert_eq!(table.get(pos(0, 0)), Cell::Void);
}

#[test]
fn directions_come_in_fixed_order() {
    let dirs = Direction::to_vec();
    assert_eq!(dirs.len(), 8);
    assert_eq!(dirs[0], Direction::LeftUp);
    assert_eq!(dirs[1], Direction::Up);
    assert_eq!(dirs[2], Direction::RightUp);
    assert_eq!(dirs[3], Direction::Left);
    assert_eq!(dirs[4], Direction::Right);
    assert_eq!(dirs[5], Direction::LeftDown);
    assert_eq!(dirs[6], Direction::Down);
    assert_eq!(dirs[7], Direction::RightDown);
}

#[test]
fn around_count_interior_is_eight() {
    let table = Table::new(3, 3);
    assert_eq!(table.around_count(pos(1, 1), None), 8);
}

#[test]
fn around_count_corner_is_three() {
    let table = Table::new(3, 3);
    assert_eq!(table.around_count(pos(0, 0), None), 3);
    assert_eq!(table.around_count(pos(0, 2), None), 3);
    assert_eq!(table.around_count(pos(2, 0), None), 3);
    assert_eq!(table.around_count(pos(2, 2), None), 3);
}

#[test]
fn around_count_edge_is_five() {
    let table = Table::new(3, 3);
    assert_eq!(table.around_count(pos(0, 1), None), 5);
    assert_eq!(table.around_count(pos(1, 0), None), 5);
    assert_eq!(table.around_count(pos(1, 2), None), 5);
    assert_eq!(table.around_count(pos(2, 1), None), 5);
}

#[test]
fn around_count_filters_by_state() {
    let mut table = Table::new(3, 3);
    table.set(pos(0, 0), Cell::Signal);
    table.set(pos(0, 1), Cell::Signal);
    table.set(pos(2, 2), Cell::Wire);
    assert_eq!(table.around_count(pos(1, 1), Some(Cell::Signal)), 2);
    assert_eq!(table.around_count(pos(1, 1), Some(Cell::Wire)), 1);
    assert_eq!(table.around_count(pos(1, 1), Some(Cell::Void)), 5);
    assert_eq!(table.around_count(pos(1, 1), Some(Cell::TailSignal)), 0);
    assert_eq!(table.around_count(pos(1, 1), None), 8);
}

#[test]
fn wire_with_no_signal_neighbor_stays_wire() {
    let mut table = Table::new(1, 2);
    table.set(pos(0, 0), Cell::Wire);
    table.set(pos(0, 1), Cell::Wire);
    let next = table.step();
    assert_eq!(next.get(pos(0, 0)), Cell::Wire);
    assert_eq!(next.get(pos(0, 1)), Cell::Wire);
}

#[test]
fn wire_with_one_signal_neighbor_ignites() {
    let mut table = Table::new(3, 3);
    table.set(pos(1, 1), Cell::Wire);
    table.set(pos(0, 0), Cell::Signal);
    let next = table.step();
    assert_eq!(next.get(pos(1, 1)), Cell::Signal);
}

#[test]
fn wire_with_two_signal_neighbors_ignites() {
    let mut table = Table::new(3, 3);
    table.set(pos(1, 1), Cell::Wire);
    table.set(pos(0, 0), Cell::Signal);
    table.set(pos(2, 2), Cell::Signal);
    let next = table.step();
    assert_eq!(next.get(pos(1, 1)), Cell::Signal);
}

#[test]
fn wire_with_three_signal_neighbors_stays_wire() {
    let mut table = Table::new(3, 3);
    table.set(pos(1, 1), Cell::Wire);
    table.set(pos(0, 0), Cell::Signal);
    table.set(pos(0, 1), Cell::Signal);
    table.set(pos(0, 2), Cell::Signal);
    let next = table.step();
    assert_eq!(next.get(pos(1, 1)), Cell::Wire);
}

#[test]
fn signal_decays_to_tail_regardless_of_neighbors() {
    let mut lone = Table::new(1, 1);
    lone.set(pos(0, 0), Cell::Signal);
    assert_eq!(lone.step().get(pos(0, 0)), Cell::TailSignal);

    let mut crowded = Table::new(3, 3);
    for row in 0..3 {
        for column in 0..3 {
            crowded.set(pos(row, column), Cell::Signal);
        }
    }
    let next = crowded.step();
    for row in 0..3 {
        for column in 0..3 {
            assert_eq!(next.get(pos(row, column)), Cell::TailSignal);
        }
    }
}

#[test]
fn tail_reverts_to_wire() {
    let mut table = Table::new(2, 2);
    table.set(pos(0, 1), Cell::TailSignal);
    table.set(pos(1, 0), Cell::Signal);
    let next = table.step();
    assert_eq!(next.get(pos(0, 1)), Cell::Wire);
}

#[test]
fn void_never_leaves_void() {
    let mut table = Table::new(3, 3);
    for row in 0..3 {
        for column in 0..3 {
            if !(row == 1 && column == 1) {
                table.set(pos(row, column), Cell::Signal);
            }
        }
    }
    for _ in 0..5 {
        table = table.step();
        assert_eq!(table.get(pos(1, 1)), Cell::Void);
    }
}

#[test]
fn all_void_grid_is_unchanged_by_step() {
    let table = Table::new(4, 6);
    let next = table.step();
    assert_eq!(next.get_size(), (4, 6));
    for row in 0..4 {
        for column in 0..6 {
            assert_eq!(next.get(pos(row, column)), Cell::Void);
        }
    }
}

#[test]
fn shift_from_top_left_corner() {
    let origin = pos(0, 0);
    let max_row = Some(4);
    let max_column = Some(4);
    assert_eq!(origin.shift(Direction::Up, max_row, max_column), None);
    assert_eq!(origin.shift(Direction::Left, max_row, max_column), None);
    assert_eq!(origin.shift(Direction::LeftUp, max_row, max_column), None);
    assert_eq!(origin.shift(Direction::RightUp, max_row, max_column), None);
    assert_eq!(origin.shift(Direction::LeftDown, max_row, max_column), None);
    assert_eq!(origin.shift(Direction::Right, max_row, max_column), Some(pos(0, 1)));
    assert_eq!(origin.shift(Direction::Down, max_row, max_column), Some(pos(1, 0)));
    assert_eq!(origin.shift(Direction::RightDown, max_row, max_column), Some(pos(1, 1)));
}

#[test]
fn shift_from_bottom_right_corner() {
    let corner = pos(4, 4);
    let max_row = Some(4);
    let max_column = Some(4);
    assert_eq!(corner.shift(Direction::Down, max_row, max_column), None);
    assert_eq!(corner.shift(Direction::Right, max_row, max_column), None);
    assert_eq!(corner.shift(Direction::RightDown, max_row, max_column), None);
    assert_eq!(corner.shift(Direction::Up, max_row, max_column), Some(pos(3, 4)));
    assert_eq!(corner.shift(Direction::Left, max_row, max_column), Some(pos(4, 3)));
    assert_eq!(corner.shift(Direction::LeftUp, max_row, max_column), Some(pos(3, 3)));
}

#[test]
fn shift_without_bounds_is_open_above() {
    let spot = pos(7, 9);
    assert_eq!(spot.shift(Direction::Down, None, None), Some(pos(8, 9)));
    assert_eq!(spot.shift(Direction::Right, None, None), Some(pos(7, 10)));
    assert_eq!(spot.shift(Direction::LeftUp, None, None), Some(pos(6, 8)));
}

#[test]
fn shift_never_wraps_at_machine_limit() {
    let extreme = pos(usize::MAX, 5);
    assert_eq!(extreme.shift(Direction::Down, None, None), None);
    assert_eq!(extreme.shift(Direction::Up, None, None), Some(pos(usize::MAX - 1, 5)));
    let wide = pos(5, usize::MAX);
    assert_eq!(wide.shift(Direction::Right, None, None), None);
    assert_eq!(wide.shift(Direction::Left, None, None), Some(pos(5, usize::MAX - 1)));
}

#[test]
fn shift_past_given_bound_is_absent() {
    let spot = pos(2, 2);
    assert_eq!(spot.shift(Direction::Down, Some(2), Some(9)), None);
    assert_eq!(spot.shift(Direction::Right, Some(9), Some(2)), None);
    assert_eq!(spot.shift(Direction::RightDown, Some(9), Some(9)), Some(pos(3, 3)));
}

#[test]
fn signal_pulse_advances_one_cell_per_step() {
    let mut table = Table::new(1, 5);
    table.set(pos(0, 1), Cell::Wire);
    table.set(pos(0, 2), Cell::Wire);
    table.set(pos(0, 3), Cell::Wire);
    table.set(pos(0, 1), Cell::Signal);

    let after_one = table.step();
    let expected_one = [
        Cell::Void,
        Cell::TailSignal,
        Cell::Signal,
        Cell::Wire,
        Cell::Void,
    ];
    for (column, expected) in expected_one.iter().enumerate() {
        assert_eq!(after_one.get(pos(0, column)), *expected);
    }

    let after_two = after_one.step();
    let expected_two = [
        Cell::Void,
        Cell::Wire,
        Cell::TailSignal,
        Cell::Signal,
        Cell::Void,
    ];
    for (column, expected) in expected_two.iter().enumerate() {
        assert_eq!(after_two.get(pos(0, column)), *expected);
    }

    let after_three = after_two.step();
    let expected_three = [
        Cell::Void,
        Cell::Wire,
        Cell::Wire,
        Cell::TailSignal,
        Cell::Void,
    ];
    for (column, expected) in expected_three.iter().enumerate() {
        assert_eq!(after_three.get(pos(0, column)), *expected);
    }
}

#[test]
fn access_one_past_the_end_is_out_of_range() {
    let mut table = Table::new(3, 4);
    assert_eq!(table.try_get(pos(3, 0)), Err(OutOfRange));
    assert_eq!(table.try_get(pos(0, 4)), Err(OutOfRange));
    assert_eq!(table.try_set(pos(3, 0), Cell::Wire), Err(OutOfRange));
    assert_eq!(table.try_set(pos(0, 4), Cell::Wire), Err(OutOfRange));
    for row in 0..3 {
        for column in 0..4 {
            assert_eq!(table.get(pos(row, column)), Cell::Void);
        }
    }
    assert_eq!(table.try_get(pos(2, 3)), Ok(Cell::Void));
}

#[test]
fn try_set_changes_exactly_one_cell() {
    let mut table = Table::new(2, 3);
    assert_eq!(table.try_set(pos(1, 2), Cell::Wire), Ok(()));
    for row in 0..2 {
        for column in 0..3 {
            let expected = if row == 1 && column == 2 { Cell::Wire } else { Cell::Void };
            assert_eq!(table.get(pos(row, column)), expected);
        }
    }
}

#[test]
fn step_leaves_the_current_grid_untouched() {
    let mut table = Table::new(2, 2);
    table.set(pos(0, 0), Cell::Signal);
    table.set(pos(1, 1), Cell::Wire);
    let _next = table.step();
    assert_eq!(table.get(pos(0, 0)), Cell::Signal);
    assert_eq!(table.get(pos(1, 1)), Cell::Wire);
    assert_eq!(table.get(pos(0, 1)), Cell::Void);
    assert_eq!(table.get(pos(1, 0)), Cell::Void);
}
