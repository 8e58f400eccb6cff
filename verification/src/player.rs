//! Geometry and entities: grid positions, the movement heading, the player's
//! head, and the trailing body ("tail") of previously visited cells.

use std::collections::VecDeque;
use vstd::prelude::*;
use vstd::string::StringExecFns;

verus! {

/// A movement heading; the grid has no diagonal moves.
#[derive(PartialEq, Eq, Structural, Debug, Copy, Clone)]
pub enum Direction {
    Up,
    Right,
    Down,
    Left,
}

/// Whether a move grows the body (a powerup was consumed) or merely shifts it.
pub enum MoveType {
    Normal,
    PowerUp,
}

/// A grid coordinate: zero-based column and row, row growing downward.
#[derive(PartialEq, Eq, Structural, Debug, Copy, Clone)]
pub struct Position {
    pub column_number: usize,
    pub row_number: usize,
}

impl Position {
    pub fn new(column_number: usize, row_number: usize) -> (p: Position)
        ensures
            p == (Position { column_number, row_number }),
    {
        Self { column_number, row_number }
    }
}

/// True when some element of `s` sits at column `column_number`, row `row_number`.
pub open spec fn seq_contains_cell(s: Seq<Position>, column_number: int, row_number: int) -> bool {
    exists|i: int|
        0 <= i < s.len() && s[i].column_number == column_number && s[i].row_number == row_number
}

/// The body segments trailing the head, head-adjacent first.
#[derive(Debug, Clone)]
pub struct Tail {
    pub positions: VecDeque<Position>,
}

impl Tail {
    pub fn new(column_number: usize, row_number: usize) -> (t: Tail)
        ensures
            t.positions@ =~= seq![Position { column_number, row_number }],
    {
        let mut positions: VecDeque<Position> = VecDeque::new();
        positions.push_back(Position::new(column_number, row_number));
        Tail { positions }
    }

    /// Reports whether any body segment occupies the given cell.
    pub fn check(&self, column_number: usize, row_number: usize) -> (r: bool)
        ensures
            r == seq_contains_cell(self.positions@, column_number as int, row_number as int),
    {
        let n = self.positions.len();
        let mut i: usize = 0;
        while i < n
            invariant
                i <= n,
                n == self.positions@.len(),
                forall|j: int|
                    0 <= j < i ==> !(self.positions@[j].column_number == column_number
                        && self.positions@[j].row_number == row_number),
            decreases n - i,
        {
            let pos = self.positions[i];
            if pos.column_number == column_number && pos.row_number == row_number {
                return true;
            }
            i += 1;
        }
        false
    }
}

/// The column one step from `p`'s head in its heading.
pub open spec fn next_column(p: Player) -> int {
    match p.heading {
        Direction::Right => p.head_position.column_number + 1,
        Direction::Left => p.head_position.column_number - 1,
        _ => p.head_position.column_number as int,
    }
}

/// The row one step from `p`'s head in its heading.
pub open spec fn next_row(p: Player) -> int {
    match p.heading {
        Direction::Down => p.head_position.row_number + 1,
        Direction::Up => p.head_position.row_number - 1,
        _ => p.head_position.row_number as int,
    }
}

/// True when `requested` turns the heading by a quarter: the only accepted
/// heading changes.
pub open spec fn orthogonal(current: Direction, requested: Direction) -> bool {
    match (current, requested) {
        (Direction::Up, Direction::Left) => true,
        (Direction::Up, Direction::Right) => true,
        (Direction::Down, Direction::Left) => true,
        (Direction::Down, Direction::Right) => true,
        (Direction::Left, Direction::Up) => true,
        (Direction::Left, Direction::Down) => true,
        (Direction::Right, Direction::Up) => true,
        (Direction::Right, Direction::Down) => true,
        _ => false,
    }
}

/// True when `requested` points directly against `current`.
pub open spec fn opposite(current: Direction, requested: Direction) -> bool {
    match (current, requested) {
        (Direction::Up, Direction::Down) => true,
        (Direction::Down, Direction::Up) => true,
        (Direction::Left, Direction::Right) => true,
        (Direction::Right, Direction::Left) => true,
        _ => false,
    }
}

/// The heading after a change request: the request wins only when it is
/// orthogonal to the current heading; an equal or opposite request is ignored.
pub open spec fn heading_after(current: Direction, requested: Direction) -> Direction {
    if orthogonal(current, requested) {
        requested
    } else {
        current
    }
}

/// Requesting the same direction twice leaves the same heading as requesting
/// it once: a heading change request is idempotent.
pub proof fn lemma_change_heading_idempotent(current: Direction, requested: Direction)
    ensures
        heading_after(heading_after(current, requested), requested) == heading_after(
            current,
            requested,
        ),
{
}

/// A request for the direction directly opposite the current heading is always
/// rejected: the heading stays as it was.
pub proof fn lemma_opposite_request_rejected(current: Direction, requested: Direction)
    requires
        opposite(current, requested),
    ensures
        heading_after(current, requested) == current,
{
}

/// The direction a one-letter code stands for: "l", "r", "u" or "d";
/// any other string stands for none.
pub open spec fn direction_code(s: Seq<char>) -> Option<Direction> {
    if s == seq!['l'] {
        Some(Direction::Left)
    } else if s == seq!['r'] {
        Some(Direction::Right)
    } else if s == seq!['u'] {
        Some(Direction::Up)
    } else if s == seq!['d'] {
        Some(Direction::Down)
    } else {
        None
    }
}

impl Direction {
    /// Parses the one-letter direction codes; anything else is rejected with
    /// a message naming the permitted codes.
    pub fn try_from(value: String) -> (r: Result<Direction, &'static str>)
        ensures
            match direction_code(value@) {
                Some(d) => r == Ok::<Direction, &'static str>(d),
                None => r is Err,
            },
    {
        proof {
            reveal_strlit("l");
            reveal_strlit("r");
            reveal_strlit("u");
            reveal_strlit("d");
            assert("l"@ =~= seq!['l']);
            assert("r"@ =~= seq!['r']);
            assert("u"@ =~= seq!['u']);
            assert("d"@ =~= seq!['d']);
        }
        if value == String::from_str("l") {
            Ok(Direction::Left)
        } else if value == String::from_str("r") {
            Ok(Direction::Right)
        } else if value == String::from_str("u") {
            Ok(Direction::Up)
        } else if value == String::from_str("d") {
            Ok(Direction::Down)
        } else {
            Err(r#"Only "l", "r", "u", and "d" permitted "#)
        }
    }
}

/// The head and its heading.
#[derive(Debug, Clone, Copy)]
pub struct Player {
    pub head_position: Position,
    pub heading: Direction,
}

impl Player {
    pub fn new(x: usize, y: usize) -> (p: Player)
        ensures
            p.head_position == (Position { column_number: x, row_number: y }),
            p.heading == Direction::Right,
    {
        Self { head_position: Position { column_number: x, row_number: y }, heading: Direction::Right }
    }

    /// Moves the head to `new_position` and returns the position it vacated.
    pub fn move_player(&mut self, new_position: Position) -> (previous_position: Position)
        ensures
            previous_position == old(self).head_position,
            final(self).head_position == new_position,
            final(self).heading == old(self).heading,
    {
        let previous_position = self.head_position;
        self.head_position = new_position;
        previous_position
    }

    /// One unit step from the head in the current heading: up decreases the
    /// row, down increases it, left decreases the column, right increases it.
    pub fn calculate_new_position(&self) -> (p: Position)
        requires
            self.heading is Up ==> self.head_position.row_number >= 1,
            self.heading is Left ==> self.head_position.column_number >= 1,
            self.heading is Right ==> self.head_position.column_number < usize::MAX,
            self.heading is Down ==> self.head_position.row_number < usize::MAX,
        ensures
            p.column_number == next_column(*self),
            p.row_number == next_row(*self),
    {
        match self.heading {
            Direction::Up => Position {
                column_number: self.head_position.column_number,
                row_number: self.head_position.row_number - 1,
            },
            Direction::Right => Position {
                column_number: self.head_position.column_number + 1,
                row_number: self.head_position.row_number,
            },
            Direction::Left => Position {
                column_number: self.head_position.column_number - 1,
                row_number: self.head_position.row_number,
            },
            Direction::Down => Position {
                column_number: self.head_position.column_number,
                row_number: self.head_position.row_number + 1,
            },
        }
    }

    /// Applies a heading change request, accepting it only when it is
    /// orthogonal to the current heading; an equal or opposite request is
    /// silently ignored, which rules out an instant reversal into the body.
    pub fn change_heading(&mut self, new_direction: Direction)
        ensures
            final(self).heading == heading_after(old(self).heading, new_direction),
            final(self).head_position == old(self).head_position,
    {
        let new_heading: Option<Direction> = match (self.heading, new_direction) {
            (Direction::Up, Direction::Right) => Some(Direction::Right),
            (Direction::Down, Direction::Right) => Some(Direction::Right),
            (Direction::Up, Direction::Left) => Some(Direction::Left),
            (Direction::Down, Direction::Left) => Some(Direction::Left),
            (Direction::Left, Direction::Up) => Some(Direction::Up),
            (Direction::Right, Direction::Up) => Some(Direction::Up),
            (Direction::Left, Direction::Down) => Some(Direction::Down),
            (Direction::Right, Direction::Down) => Some(Direction::Down),
            _ => None,
        };
        if let Some(direction) = new_heading {
            self.heading = direction;
        }
    }
}

} // verus!
