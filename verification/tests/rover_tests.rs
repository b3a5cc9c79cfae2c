use mars_rover::cardinal::{opposite, Cardinals};
use mars_rover::decode::char_to_cardinals;
use mars_rover::greeting::hello_world;
use mars_rover::grid::{has_obstacle, Grid};
use mars_rover::interpreter::{command, commands};
use mars_rover::rover::{DirectionX, DirectionY, Rover};

fn give_rover(orientation: Cardinals, position: (i32, i32)) -> Rover {
    Rover {
        name: String::from("curiosity"),
        orientation,
        grid_size: 6,
        position,
    }
}

#[test]
fn given_empty_then_return_hello_world() {
    let h1 = hello_world(String::from(""));
    assert_eq!(String::from("hello world"), h1);
}

#[test]
fn given_cutii_then_return_hello_cutii() {
    let h2 = hello_world(String::from("cutii"));
    assert_eq!(String::from("hello cutii"), h2);
}

#[test]
fn should_initialize_rover_named_curiosity() {
    let rover = give_rover(Cardinals::North, (0, 0));
    assert_eq!(String::from("curiosity"), rover.name);
}

#[test]
fn given_north_when_north_should_forward() {
    let rover_start = give_rover(Cardinals::North, (0, 0));
    let grid = Grid {
        size: 6,
        obstacles: Vec::new(),
    };
    let rover_end = command(rover_start, Cardinals::North, &grid);
    assert_eq!((0, 1), rover_end.position);
}

#[test]
fn given_south_when_north_4x4_should_backward() {
    let rover_start = give_rover(Cardinals::South, (4, 4));
    let grid = Grid {
        size: 6,
        obstacles: Vec::new(),
    };
    let rover_end = command(rover_start, Cardinals::North, &grid);
    assert_eq!((4, 5), rover_end.position);
}

#[test]
fn given_south_when_north_5x5_should_backward() {
    let rover_start = give_rover(Cardinals::South, (5, 5));
    let grid = Grid {
        size: 6,
        obstacles: Vec::new(),
    };
    let rover_end = command(rover_start, Cardinals::North, &grid);
    assert_eq!((5, 0), rover_end.position);
}

#[test]
fn given_north_when_east_should_turn_right_forward() {
    let rover_start = give_rover(Cardinals::North, (0, 0));
    let grid = Grid {
        size: 6,
        obstacles: Vec::new(),
    };
    let rover_end = command(rover_start, Cardinals::East, &grid);
    assert_eq!((1, 0), rover_end.position);
}

#[test]
fn given_north_when_north_east_should_forward_turn_right_forward() {
    let rover_start = give_rover(Cardinals::North, (0, 0));
    let rover_end = rover_start
        .move_rover(DirectionY::Forward)
        .turn_rover(DirectionX::Right)
        .move_rover(DirectionY::Forward);
    assert_eq!((1, 1), rover_end.position);
}

#[test]
fn given_east_when_north_should_turn_left_forward() {
    let rover_start = give_rover(Cardinals::East, (0, 0));
    let grid = Grid {
        size: 6,
        obstacles: Vec::new(),
    };
    let rover_end = command(rover_start, Cardinals::North, &grid);
    assert_eq!((0, 1), rover_end.position);
}

#[test]
fn given_east_when_east_north_should_forward_turn_left_forward() {
    let rover_start = give_rover(Cardinals::East, (0, 0));
    let rover_end = rover_start
        .move_rover(DirectionY::Forward)
        .turn_rover(DirectionX::Left)
        .move_rover(DirectionY::Forward);
    assert_eq!((1, 1), rover_end.position);
}

#[test]
fn given_north_when_north_south_should_forward_backward() {
    let rover_start = give_rover(Cardinals::North, (0, 0));
    let rover_end = rover_start
        .move_rover(DirectionY::Forward)
        .move_rover(DirectionY::Backward);
    assert_eq!((0, 0), rover_end.position);
}

#[test]
fn given_north_when_north_with_obstacle_shouldnt_move() {
    let rover_start = give_rover(Cardinals::North, (0, 0));
    let grid = Grid {
        size: 6,
        obstacles: vec![(0, 1)],
    };
    let rover_end = command(rover_start, Cardinals::North, &grid);
    assert_eq!((0, 0), rover_end.position);
}

#[test]
fn given_commands_should_return_vec_cardinals() {
    let cardinals = vec![
        Cardinals::North,
        Cardinals::East,
        Cardinals::South,
        Cardinals::West,
    ];
    let commands = vec!['N', 'E', 'S', 'W', 'K'];
    assert_eq!(cardinals, char_to_cardinals(commands));
}

#[test]
fn given_commands_should_move_rover() {
    let rover_start = give_rover(Cardinals::North, (0, 0));
    let grid = Grid {
        size: 6,
        obstacles: Vec::new(),
    };
    let orders = vec![
        Cardinals::North,
        Cardinals::East,
        Cardinals::South,
        Cardinals::West,
    ];
    assert_eq!((0, 0), commands(orders, rover_start, &grid).position);
}

// --- rotation algebra: next and previous are inverses for every direction ---

#[test]
fn next_then_previous_returns_each_direction() {
    for d in [
        Cardinals::North,
        Cardinals::East,
        Cardinals::South,
        Cardinals::West,
    ] {
        assert_eq!(d, d.next().previous());
        assert_eq!(d, d.previous().next());
    }
}

#[test]
fn opposite_twice_returns_each_direction() {
    for d in [
        Cardinals::North,
        Cardinals::East,
        Cardinals::South,
        Cardinals::West,
    ] {
        assert_eq!(d, opposite(&opposite(&d)));
    }
}

#[test]
fn opposite_maps_north_south_and_east_west() {
    assert_eq!(Cardinals::South, opposite(&Cardinals::North));
    assert_eq!(Cardinals::North, opposite(&Cardinals::South));
    assert_eq!(Cardinals::West, opposite(&Cardinals::East));
    assert_eq!(Cardinals::East, opposite(&Cardinals::West));
}

// --- forward-then-backward round trip away from the grid edge ---

#[test]
fn forward_backward_round_trip_facing_east() {
    let rover_start = give_rover(Cardinals::East, (3, 2));
    let rover_end = rover_start
        .move_rover(DirectionY::Forward)
        .move_rover(DirectionY::Backward);
    assert_eq!((3, 2), rover_end.position);
    assert_eq!(Cardinals::East, rover_end.orientation);
}

// --- wrap-around at the lower edge: never a negative coordinate ---

#[test]
fn backward_from_zero_wraps_to_top_facing_north() {
    let rover_start = give_rover(Cardinals::North, (0, 0));
    let rover_end = rover_start.move_rover(DirectionY::Backward);
    assert_eq!((0, 5), rover_end.position);
}

#[test]
fn backward_from_zero_wraps_to_top_facing_east() {
    let rover_start = give_rover(Cardinals::East, (0, 3));
    let rover_end = rover_start.move_rover(DirectionY::Backward);
    assert_eq!((5, 3), rover_end.position);
}

#[test]
fn forward_from_zero_wraps_to_top_facing_west() {
    let rover_start = give_rover(Cardinals::West, (0, 3));
    let rover_end = rover_start.move_rover(DirectionY::Forward);
    assert_eq!((5, 3), rover_end.position);
}

// --- the obstacle veto also rolls back the turn ---

#[test]
fn obstacle_veto_discards_the_turn_as_well() {
    let rover_start = give_rover(Cardinals::North, (0, 0));
    let grid = Grid {
        size: 6,
        obstacles: vec![(1, 0)],
    };
    let rover_end = command(rover_start, Cardinals::East, &grid);
    assert_eq!((0, 0), rover_end.position);
    assert_eq!(Cardinals::North, rover_end.orientation);
}

// --- the empty command sequence leaves the rover untouched ---

#[test]
fn empty_command_sequence_returns_rover_unchanged() {
    let rover_start = give_rover(Cardinals::West, (2, 4));
    let grid = Grid {
        size: 6,
        obstacles: vec![(1, 1)],
    };
    let rover_end = commands(Vec::new(), rover_start, &grid);
    assert_eq!(String::from("curiosity"), rover_end.name);
    assert_eq!((2, 4), rover_end.position);
    assert_eq!(Cardinals::West, rover_end.orientation);
}

// --- decoding drops every unrecognised character ---

#[test]
fn decoding_empty_input_gives_no_directions() {
    let decoded = char_to_cardinals(Vec::new());
    assert!(decoded.is_empty());
}

#[test]
fn decoding_only_unrecognised_characters_gives_no_directions() {
    let decoded = char_to_cardinals(vec!['n', 'x', ' ', '0']);
    assert!(decoded.is_empty());
}

// --- the obstacle query is plain set membership ---

#[test]
fn has_obstacle_reports_membership() {
    let grid = Grid {
        size: 6,
        obstacles: vec![(1, 2), (3, 4)],
    };
    assert!(has_obstacle(&grid, (3, 4)));
    assert!(!has_obstacle(&grid, (4, 3)));
}

#[test]
fn has_obstacle_on_empty_grid_is_false() {
    let grid = Grid {
        size: 6,
        obstacles: Vec::new(),
    };
    assert!(!has_obstacle(&grid, (0, 0)));
}

// --- turning alone keeps the position ---

#[test]
fn turning_keeps_position_and_rotates_orientation() {
    let rover_start = give_rover(Cardinals::North, (2, 3));
    let right = rover_start.turn_rover(DirectionX::Right);
    assert_eq!((2, 3), right.position);
    assert_eq!(Cardinals::East, right.orientation);
    let left = give_rover(Cardinals::North, (2, 3)).turn_rover(DirectionX::Left);
    assert_eq!((2, 3), left.position);
    assert_eq!(Cardinals::West, left.orientation);
}

// --- a command sequence that meets an obstacle mid-way ---

#[test]
fn sequence_with_obstacle_skips_only_the_vetoed_step() {
    let rover_start = give_rover(Cardinals::North, (0, 0));
    let grid = Grid {
        size: 6,
        obstacles: vec![(1, 1)],
    };
    // North takes the rover to (0, 1); East is vetoed by the obstacle at
    // (1, 1), leaving orientation North; North then moves on to (0, 2).
    let orders = vec![Cardinals::North, Cardinals::East, Cardinals::North];
    let rover_end = commands(orders, rover_start, &grid);
    assert_eq!((0, 2), rover_end.position);
    assert_eq!(Cardinals::North, rover_end.orientation);
}
