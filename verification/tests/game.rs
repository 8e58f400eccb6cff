use snake::game::{
    determine_game_cell, GameArea, GameCell, GameState, InputKey, Powerup, TickOutcome, Wall,
};
use snake::player::{Direction, Player, Position, Tail};

fn state(
    head: (usize, usize),
    heading: Direction,
    tail_cells: &[(usize, usize)],
    powerup: (usize, usize),
    width: usize,
    height: usize,
    score: usize,
) -> GameState {
    let mut tail = Tail::new(tail_cells[0].0, tail_cells[0].1);
    for &(c, r) in &tail_cells[1..] {
        tail.positions.push_back(Position::new(c, r));
    }
    GameState {
        player: Player { head_position: Position::new(head.0, head.1), heading },
        tail,
        game_area: GameArea { width, height },
        powerup: Powerup::new(powerup.0, powerup.1),
        score,
    }
}

fn glyph(cell: GameCell) -> char {
    match cell {
        GameCell::Head(_) => 'S',
        GameCell::Tail => 'O',
        GameCell::Powerup => '*',
        GameCell::Empty => ' ',
        GameCell::Edge(Wall::Horizontal) => '-',
        GameCell::Edge(Wall::Vertical) => '|',
        GameCell::Edge(_) => '+',
    }
}

#[test]
fn new_game_places_the_snake_at_the_center_heading_right() {
    let gs = GameState::new(80, 30);
    assert_eq!(gs.player.head_position, Position::new(40, 15));
    assert_eq!(gs.player.heading, Direction::Right);
    assert_eq!(gs.tail.positions.len(), 1);
    assert_eq!(gs.tail.positions[0], Position::new(39, 15));
    assert_eq!(gs.powerup.0, Position::new(10, 10));
    assert_eq!(gs.score, 0);
}

#[test]
fn new_game_moves_the_powerup_off_small_boards() {
    // The default powerup cell lies outside an 8 by 8 board's interior.
    let gs = GameState::new(8, 8);
    assert_eq!(gs.powerup.0, Position::new(1, 1));
}

#[test]
fn new_game_moves_the_powerup_off_the_starting_head() {
    // On a 20 by 20 board the head starts exactly on the default cell.
    let gs = GameState::new(20, 20);
    assert_eq!(gs.player.head_position, Position::new(10, 10));
    assert_eq!(gs.powerup.0, Position::new(1, 1));
}

#[test]
fn classification_is_edge_on_the_whole_ring() {
    let gs = GameState::new(10, 8);
    assert_eq!(determine_game_cell(&gs, 0, 0), GameCell::Edge(Wall::TopLeft));
    assert_eq!(determine_game_cell(&gs, 9, 0), GameCell::Edge(Wall::TopRight));
    assert_eq!(determine_game_cell(&gs, 0, 7), GameCell::Edge(Wall::BottomLeft));
    assert_eq!(determine_game_cell(&gs, 9, 7), GameCell::Edge(Wall::BottomRight));
    assert_eq!(determine_game_cell(&gs, 4, 0), GameCell::Edge(Wall::Horizontal));
    assert_eq!(determine_game_cell(&gs, 4, 7), GameCell::Edge(Wall::Horizontal));
    assert_eq!(determine_game_cell(&gs, 0, 3), GameCell::Edge(Wall::Vertical));
    assert_eq!(determine_game_cell(&gs, 9, 3), GameCell::Edge(Wall::Vertical));
}

#[test]
fn classification_precedence_powerup_beats_tail() {
    // Adversarial pre-relocation state: the powerup sits on a body cell.
    let gs = state((2, 2), Direction::Right, &[(4, 4), (5, 4)], (4, 4), 10, 10, 1);
    assert_eq!(determine_game_cell(&gs, 4, 4), GameCell::Powerup);
    assert_eq!(determine_game_cell(&gs, 5, 4), GameCell::Tail);
}

#[test]
fn classification_precedence_head_beats_powerup() {
    let gs = state((2, 2), Direction::Up, &[(3, 3)], (2, 2), 10, 10, 0);
    assert_eq!(determine_game_cell(&gs, 2, 2), GameCell::Head(Direction::Up));
}

#[test]
fn classification_precedence_edge_beats_everything() {
    // Adversarial state: head, powerup and a body cell all on the ring.
    let gs = state((0, 3), Direction::Left, &[(5, 0)], (9, 3), 10, 10, 0);
    assert_eq!(determine_game_cell(&gs, 0, 3), GameCell::Edge(Wall::Vertical));
    assert_eq!(determine_game_cell(&gs, 5, 0), GameCell::Edge(Wall::Horizontal));
    assert_eq!(determine_game_cell(&gs, 9, 3), GameCell::Edge(Wall::Vertical));
}

#[test]
fn classification_is_empty_outside_the_board() {
    let gs = GameState::new(10, 8);
    assert_eq!(determine_game_cell(&gs, 25, 3), GameCell::Empty);
}

#[test]
fn a_non_growth_tick_shifts_the_body_and_keeps_the_score() {
    let mut gs = GameState::new(80, 30);
    let outcome = gs.tick();
    assert_eq!(outcome, TickOutcome::Continued);
    assert_eq!(gs.player.head_position, Position::new(41, 15));
    assert_eq!(gs.tail.positions.len(), 1);
    assert_eq!(gs.tail.positions[0], Position::new(40, 15));
    assert_eq!(gs.score, 0);
    assert_eq!(gs.powerup.0, Position::new(10, 10));
}

#[test]
fn a_growth_tick_adds_one_segment_and_one_point() {
    let mut gs = GameState::new(80, 30);
    gs.powerup = Powerup::new(41, 15);
    let outcome = gs.tick();
    assert_eq!(outcome, TickOutcome::PowerupConsumed);
    assert_eq!(gs.player.head_position, Position::new(41, 15));
    assert_eq!(gs.tail.positions.len(), 2);
    assert_eq!(gs.tail.positions[0], Position::new(40, 15));
    assert_eq!(gs.tail.positions[1], Position::new(39, 15));
    assert_eq!(gs.score, 1);
    // The powerup moved to a cell that is free in the new state.
    let p = gs.powerup.0;
    assert_ne!(p, gs.player.head_position);
    assert!(!gs.tail.check(p.column_number, p.row_number));
    assert_eq!(determine_game_cell(&gs, p.column_number, p.row_number), GameCell::Powerup);
}

#[test]
fn a_tick_into_the_edge_terminates_with_the_score_unchanged() {
    let mut gs = state((1, 3), Direction::Left, &[(2, 3)], (4, 4), 7, 7, 0);
    let outcome = gs.tick();
    assert_eq!(outcome, TickOutcome::Terminated);
    assert_eq!(gs.score, 0);
    assert_eq!(gs.player.head_position, Position::new(1, 3));
    assert_eq!(gs.tail.positions.len(), 1);
}

#[test]
fn a_tick_into_the_top_edge_terminates_too() {
    let mut gs = state((3, 1), Direction::Up, &[(3, 2)], (4, 4), 7, 7, 0);
    assert_eq!(gs.tick(), TickOutcome::Terminated);
    assert_eq!(gs.player.head_position, Position::new(3, 1));
}

#[test]
fn a_tick_into_the_most_recent_segment_terminates() {
    let mut gs = state((3, 3), Direction::Left, &[(2, 3)], (7, 7), 10, 10, 0);
    let outcome = gs.tick();
    assert_eq!(outcome, TickOutcome::Terminated);
    assert_eq!(gs.score, 0);
    assert_eq!(gs.player.head_position, Position::new(3, 3));
}

#[test]
fn a_tick_into_an_older_segment_terminates() {
    let mut gs = state(
        (3, 3),
        Direction::Right,
        &[(3, 4), (4, 4), (4, 3)],
        (7, 7),
        10,
        10,
        2,
    );
    let outcome = gs.tick();
    assert_eq!(outcome, TickOutcome::Terminated);
    assert_eq!(gs.score, 2);
    assert_eq!(gs.player.head_position, Position::new(3, 3));
    assert_eq!(gs.tail.positions.len(), 3);
}

#[test]
fn relocation_lands_on_a_cell_that_was_empty() {
    let mut gs = GameState::new(80, 30);
    let before = gs.clone();
    let found = gs.randomize_powerup_position();
    assert!(found);
    let p = gs.powerup.0;
    assert!(1 <= p.column_number && p.column_number <= 78);
    assert!(1 <= p.row_number && p.row_number <= 28);
    assert_eq!(determine_game_cell(&before, p.column_number, p.row_number), GameCell::Empty);
    assert_eq!(gs.player.head_position, before.player.head_position);
    assert_eq!(gs.tail.positions.len(), before.tail.positions.len());
    assert_eq!(gs.score, before.score);
}

#[test]
fn relocation_terminates_even_when_it_keeps_relocating() {
    // The interior is empty but for the snake and the powerup; every
    // relocation must still finish and land on a free cell.
    let mut gs = GameState::new(12, 12);
    for _ in 0..50 {
        let before = gs.clone();
        let found = gs.randomize_powerup_position();
        assert!(found);
        let p = gs.powerup.0;
        assert_eq!(determine_game_cell(&before, p.column_number, p.row_number), GameCell::Empty);
    }
}

#[test]
fn relocation_reports_failure_on_a_full_board() {
    // Every interior cell of the 5 by 5 board is the head or a body cell;
    // the powerup cell itself is covered by the head, as it is midway
    // through a powerup tick.
    let mut gs = state(
        (1, 1),
        Direction::Right,
        &[(2, 1), (3, 1), (1, 2), (2, 2), (3, 2), (1, 3), (2, 3), (3, 3)],
        (1, 1),
        5,
        5,
        7,
    );
    let found = gs.randomize_powerup_position();
    assert!(!found);
    assert_eq!(gs.powerup.0, Position::new(1, 1));
}

#[test]
fn consuming_the_last_free_cell_ends_the_session() {
    // After this powerup is consumed the snake covers the whole interior, so
    // the powerup has nowhere to go and the session ends.
    let mut gs = state(
        (1, 1),
        Direction::Right,
        &[(3, 1), (1, 2), (2, 2), (3, 2), (1, 3), (2, 3), (3, 3)],
        (2, 1),
        5,
        5,
        6,
    );
    let outcome = gs.tick();
    assert_eq!(outcome, TickOutcome::Terminated);
    assert_eq!(gs.score, 7);
    assert_eq!(gs.player.head_position, Position::new(2, 1));
    assert_eq!(gs.tail.positions.len(), 8);
}

#[test]
fn handle_input_maps_letters_and_arrows_to_headings() {
    let mut gs = GameState::new(80, 30);
    gs.handle_input(InputKey::Char('j'));
    assert_eq!(gs.player.heading, Direction::Down);
    gs.handle_input(InputKey::Char('l'));
    assert_eq!(gs.player.heading, Direction::Right);
    gs.handle_input(InputKey::Up);
    assert_eq!(gs.player.heading, Direction::Up);
    gs.handle_input(InputKey::Char('h'));
    assert_eq!(gs.player.heading, Direction::Left);
    gs.handle_input(InputKey::Down);
    assert_eq!(gs.player.heading, Direction::Down);
    gs.handle_input(InputKey::Char('k'));
    // Up is the opposite of Down: ignored.
    assert_eq!(gs.player.heading, Direction::Down);
}

#[test]
fn handle_input_ignores_unmapped_keys_and_reversals() {
    let mut gs = GameState::new(80, 30);
    gs.handle_input(InputKey::Char('q'));
    assert_eq!(gs.player.heading, Direction::Right);
    gs.handle_input(InputKey::Other);
    assert_eq!(gs.player.heading, Direction::Right);
    gs.handle_input(InputKey::Left);
    assert_eq!(gs.player.heading, Direction::Right);
    gs.handle_input(InputKey::Right);
    assert_eq!(gs.player.heading, Direction::Right);
}

#[test]
fn board_rows_snapshot_matches_the_classification() {
    let gs = GameState::new(80, 30);
    let rows = gs.board_rows();
    assert_eq!(rows.len(), 30);
    for row in &rows {
        assert_eq!(row.len(), 80);
    }
    assert_eq!(rows[0][0], GameCell::Edge(Wall::TopLeft));
    assert_eq!(rows[0][79], GameCell::Edge(Wall::TopRight));
    assert_eq!(rows[29][0], GameCell::Edge(Wall::BottomLeft));
    assert_eq!(rows[29][79], GameCell::Edge(Wall::BottomRight));
    assert_eq!(rows[0][40], GameCell::Edge(Wall::Horizontal));
    assert_eq!(rows[15][0], GameCell::Edge(Wall::Vertical));
    assert_eq!(rows[15][40], GameCell::Head(Direction::Right));
    assert_eq!(rows[15][39], GameCell::Tail);
    assert_eq!(rows[10][10], GameCell::Powerup);
    assert_eq!(rows[20][20], GameCell::Empty);
}

#[test]
fn minimal_board_renders_one_interior_row() {
    // A 5 by 3 board: a single interior row holding powerup, body and head.
    let gs = state((3, 1), Direction::Right, &[(2, 1)], (1, 1), 5, 3, 0);
    let rows = gs.board_rows();
    let strings: Vec<String> = rows
        .iter()
        .map(|row| row.iter().map(|cell| glyph(*cell)).collect())
        .collect();
    assert_eq!(strings, vec!["+---+", "|*OS|", "+---+"]);
}

#[test]
fn three_powerups_in_sequence_score_three_and_grow_three() {
    let mut gs = GameState::new(80, 30);
    assert_eq!(gs.player.head_position, Position::new(40, 15));
    let initial_length = gs.tail.positions.len();
    for _ in 0..3 {
        let head = gs.player.head_position;
        gs.powerup = Powerup::new(head.column_number + 1, head.row_number);
        assert_eq!(gs.tick(), TickOutcome::PowerupConsumed);
    }
    assert_eq!(gs.score, 3);
    assert_eq!(gs.tail.positions.len(), initial_length + 3);
    // Steer clear of the relocated powerup, then run into the right wall:
    // the final score is unchanged by the crash.
    gs.powerup = Powerup::new(1, 28);
    loop {
        match gs.tick() {
            TickOutcome::Continued => continue,
            TickOutcome::Terminated => break,
            TickOutcome::PowerupConsumed => panic!("the powerup was out of the snake's path"),
        }
    }
    assert_eq!(gs.score, 3);
}
