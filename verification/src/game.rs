//! The simulation state machine: board geometry, cell classification, the
//! per-tick transition, and powerup placement.

use crate::player::{
    heading_after, next_column, next_row, seq_contains_cell, Direction, Player, Position, Tail,
};
use rand::Rng;
use vstd::prelude::*;

verus! {

/// The board's fixed dimensions, in grid cells.
#[derive(PartialEq, Eq, Structural, Debug, Clone, Copy)]
pub struct GameArea {
    pub width: usize,
    pub height: usize,
}

/// The single consumable cell; consuming it grows the body and moves it.
#[derive(PartialEq, Eq, Structural, Debug, Clone, Copy)]
pub struct Powerup(pub Position);

impl Powerup {
    pub fn new(column_number: usize, row_number: usize) -> (p: Powerup)
        ensures
            p.0 == (Position { column_number, row_number }),
    {
        Self(Position::new(column_number, row_number))
    }
}

/// Which stretch of the wall ring a border cell belongs to.
#[derive(PartialEq, Eq, Structural, Clone, Copy, Debug)]
pub enum Wall {
    Horizontal,
    Vertical,
    TopLeft,
    TopRight,
    BottomLeft,
    BottomRight,
}

/// The mutually exclusive classification of a grid cell.
#[derive(PartialEq, Eq, Structural, Clone, Copy, Debug)]
pub enum GameCell {
    Head(Direction),
    Tail,
    Powerup,
    Empty,
    Edge(Wall),
}

/// What one call of `tick` did to the session.
#[derive(PartialEq, Eq, Structural, Clone, Copy, Debug)]
pub enum TickOutcome {
    Continued,
    PowerupConsumed,
    Terminated,
}

/// The whole simulation state between two ticks.
#[derive(Clone)]
pub struct GameState {
    pub player: Player,
    pub tail: Tail,
    pub game_area: GameArea,
    pub powerup: Powerup,
    pub score: usize,
}

/// True when `p` lies strictly inside the wall ring.
pub open spec fn in_interior(area: GameArea, p: Position) -> bool {
    &&& 1 <= p.column_number < area.width - 1
    &&& 1 <= p.row_number < area.height - 1
}

/// True when the coordinate lies on the outermost ring of the board.
pub open spec fn on_edge(area: GameArea, column_number: int, row_number: int) -> bool {
    ||| column_number == 0
    ||| column_number == area.width - 1
    ||| row_number == 0
    ||| row_number == area.height - 1
}

/// The classification of a cell, stated over plain values so that it can also
/// describe intermediate states within a tick. The precedence is fixed:
/// Edge over Head over Powerup over Tail over Empty.
pub open spec fn classify_spec(
    area: GameArea,
    head: Position,
    heading: Direction,
    powerup: Position,
    tail: Seq<Position>,
    column_number: int,
    row_number: int,
) -> GameCell {
    let right_edge = area.width - 1;
    let bottom_edge = area.height - 1;
    if column_number == 0 && row_number == 0 {
        GameCell::Edge(Wall::TopLeft)
    } else if column_number == right_edge && row_number == 0 {
        GameCell::Edge(Wall::TopRight)
    } else if column_number == 0 && row_number == bottom_edge {
        GameCell::Edge(Wall::BottomLeft)
    } else if column_number == right_edge && row_number == bottom_edge {
        GameCell::Edge(Wall::BottomRight)
    } else if column_number == 0 || column_number == right_edge {
        GameCell::Edge(Wall::Vertical)
    } else if row_number == 0 || row_number == bottom_edge {
        GameCell::Edge(Wall::Horizontal)
    } else if head.column_number == column_number && head.row_number == row_number {
        GameCell::Head(heading)
    } else if powerup.column_number == column_number && powerup.row_number == row_number {
        GameCell::Powerup
    } else if seq_contains_cell(tail, column_number, row_number) {
        GameCell::Tail
    } else {
        GameCell::Empty
    }
}

impl GameState {
    /// The classification of a cell of this state.
    pub open spec fn spec_cell(self, column_number: int, row_number: int) -> GameCell {
        classify_spec(
            self.game_area,
            self.player.head_position,
            self.player.heading,
            self.powerup.0,
            self.tail.positions@,
            column_number,
            row_number,
        )
    }

    /// The invariant that holds between any two ticks of a running session:
    /// the head, every body segment and the powerup sit strictly inside the
    /// wall ring and are pairwise distinct, and the body holds one segment
    /// per consumed powerup plus the initial one.
    pub open spec fn wf(self) -> bool {
        let tail = self.tail.positions@;
        &&& 5 <= self.game_area.width
        &&& 5 <= self.game_area.height
        &&& in_interior(self.game_area, self.player.head_position)
        &&& in_interior(self.game_area, self.powerup.0)
        &&& self.powerup.0 != self.player.head_position
        &&& tail.len() == self.score + 1
        &&& forall|i: int| 0 <= i < tail.len() ==> in_interior(self.game_area, #[trigger] tail[i])
        &&& forall|i: int| 0 <= i < tail.len() ==> #[trigger] tail[i] != self.player.head_position
        &&& forall|i: int| 0 <= i < tail.len() ==> #[trigger] tail[i] != self.powerup.0
        &&& forall|i: int, j: int| 0 <= i < j < tail.len() ==> tail[i] != tail[j]
    }
}

/// The classification never mixes kinds: a cell on the wall ring is Edge no
/// matter what else sits there; off the ring the head wins over the powerup,
/// the powerup over the body, and a cell is Empty exactly when nothing
/// claims it.
pub proof fn lemma_classify_precedence(
    area: GameArea,
    head: Position,
    heading: Direction,
    powerup: Position,
    tail: Seq<Position>,
    column_number: int,
    row_number: int,
)
    ensures
        on_edge(area, column_number, row_number) ==> classify_spec(
            area,
            head,
            heading,
            powerup,
            tail,
            column_number,
            row_number,
        ) is Edge,
        !on_edge(area, column_number, row_number) && head.column_number == column_number
            && head.row_number == row_number ==> classify_spec(
            area,
            head,
            heading,
            powerup,
            tail,
            column_number,
            row_number,
        ) == GameCell::Head(heading),
        !on_edge(area, column_number, row_number) && !(head.column_number == column_number
            && head.row_number == row_number) && powerup.column_number == column_number
            && powerup.row_number == row_number ==> classify_spec(
            area,
            head,
            heading,
            powerup,
            tail,
            column_number,
            row_number,
        ) == GameCell::Powerup,
        !on_edge(area, column_number, row_number) && !(head.column_number == column_number
            && head.row_number == row_number) && !(powerup.column_number == column_number
            && powerup.row_number == row_number) && seq_contains_cell(
            tail,
            column_number,
            row_number,
        ) ==> classify_spec(area, head, heading, powerup, tail, column_number, row_number)
            == GameCell::Tail,
        !on_edge(area, column_number, row_number) && !(head.column_number == column_number
            && head.row_number == row_number) && !(powerup.column_number == column_number
            && powerup.row_number == row_number) && !seq_contains_cell(
            tail,
            column_number,
            row_number,
        ) ==> classify_spec(area, head, heading, powerup, tail, column_number, row_number)
            == GameCell::Empty,
{
}

/// Classifies one cell of the board. A pure read: precedence is
/// Edge over Head over Powerup over Tail over Empty.
pub fn determine_game_cell(
    game_state: &GameState,
    column_number: usize,
    row_number: usize,
) -> (cell: GameCell)
    requires
        1 <= game_state.game_area.width,
        1 <= game_state.game_area.height,
    ensures
        cell == game_state.spec_cell(column_number as int, row_number as int),
{
    let right_edge = game_state.game_area.width - 1;
    let bottom_edge = game_state.game_area.height - 1;

    if column_number == 0 && row_number == 0 {
        GameCell::Edge(Wall::TopLeft)
    } else if column_number == right_edge && row_number == 0 {
        GameCell::Edge(Wall::TopRight)
    } else if column_number == 0 && row_number == bottom_edge {
        GameCell::Edge(Wall::BottomLeft)
    } else if column_number == right_edge && row_number == bottom_edge {
        GameCell::Edge(Wall::BottomRight)
    } else if column_number == 0 || column_number == right_edge {
        GameCell::Edge(Wall::Vertical)
    } else if row_number == 0 || row_number == bottom_edge {
        GameCell::Edge(Wall::Horizontal)
    } else if game_state.player.head_position.column_number == column_number
        && game_state.player.head_position.row_number == row_number {
        GameCell::Head(game_state.player.heading)
    } else if game_state.powerup.0.column_number == column_number
        && game_state.powerup.0.row_number == row_number {
        GameCell::Powerup
    } else if game_state.tail.check(column_number, row_number) {
        GameCell::Tail
    } else {
        GameCell::Empty
    }
}

/// True when the fixed default powerup cell fits this board: inside the wall
/// ring and clear of the starting head and body.
pub open spec fn default_powerup_fits(width: int, height: int) -> bool {
    &&& 10 < width - 1
    &&& 10 < height - 1
    &&& !(width / 2 == 10 && height / 2 == 10)
    &&& !(width / 2 - 1 == 10 && height / 2 == 10)
}

/// Where a new session's powerup starts: the fixed default cell when the
/// board is large enough for it, else the top-left interior corner, which the
/// starting snake (whose cells sit on the board's middle row) never touches.
pub open spec fn initial_powerup(width: int, height: int) -> Position {
    if default_powerup_fits(width, height) {
        Position { column_number: 10, row_number: 10 }
    } else {
        Position { column_number: 1, row_number: 1 }
    }
}

impl GameState {
    /// A fresh session: the head at the board's center heading right, one
    /// body segment just left of it, no score yet.
    pub fn new(width: usize, height: usize) -> (s: GameState)
        requires
            5 <= width,
            5 <= height,
        ensures
            s.game_area == (GameArea { width, height }),
            s.player.head_position == (Position { column_number: width / 2, row_number: height / 2 }),
            s.player.heading == Direction::Right,
            s.tail.positions@ =~= seq![
                Position { column_number: (width / 2 - 1) as usize, row_number: height / 2 },
            ],
            s.powerup.0 == initial_powerup(width as int, height as int),
            s.score == 0,
            s.wf(),
    {
        let player_x = width / 2;
        let player_y = height / 2;
        let tail_x = player_x - 1;
        let tail_y = player_y;
        let player = Player::new(player_x, player_y);
        let tail = Tail::new(tail_x, tail_y);
        let game_area = GameArea { width, height };
        let powerup = if 10 < width - 1 && 10 < height - 1 && !(player_x == 10 && player_y == 10)
            && !(tail_x == 10 && tail_y == 10) {
            Powerup::new(10, 10)
        } else {
            Powerup::new(1, 1)
        };

        Self { player, tail, game_area, powerup, score: 0 }
    }
}

/// Relies on rand: `Rng::gen_range` on the thread-local generator returns a
/// value of the half-open range `low..high`, and panics only when the range
/// is empty, which the precondition rules out.
#[verifier::external_body]
fn random_in_range(low: usize, high: usize) -> (r: usize)
    requires
        low < high,
    ensures
        low <= r < high,
{
    rand::thread_rng().gen_range(low..high)
}

impl GameState {
    /// Moves the powerup to a cell that classifies Empty, drawing interior
    /// cells at random and rejecting occupied ones; when the draws keep
    /// failing, a sweep takes the first free interior cell, so the function
    /// always returns. It reports whether a free cell existed at all; when
    /// none did, the powerup stays where it was.
    pub fn randomize_powerup_position(&mut self) -> (found: bool)
        requires
            3 <= old(self).game_area.width,
            3 <= old(self).game_area.height,
        ensures
            final(self).player == old(self).player,
            final(self).tail == old(self).tail,
            final(self).game_area == old(self).game_area,
            final(self).score == old(self).score,
            found == exists|c: int, r: int|
                {
                    &&& 1 <= c < old(self).game_area.width - 1
                    &&& 1 <= r < old(self).game_area.height - 1
                    &&& old(self).spec_cell(c, r) is Empty
                },
            found ==> in_interior(old(self).game_area, final(self).powerup.0),
            found ==> old(self).spec_cell(
                final(self).powerup.0.column_number as int,
                final(self).powerup.0.row_number as int,
            ) is Empty,
            !found ==> final(self).powerup == old(self).powerup,
    {
        let width = self.game_area.width;
        let height = self.game_area.height;
        let mut attempts: usize = 0;
        while attempts < 100
            invariant
                *self == *old(self),
                width == old(self).game_area.width,
                height == old(self).game_area.height,
                3 <= width,
                3 <= height,
            decreases 100 - attempts,
        {
            let powerup_column = random_in_range(1, width - 1);
            let powerup_row = random_in_range(1, height - 1);
            if determine_game_cell(self, powerup_column, powerup_row) == GameCell::Empty {
                self.powerup = Powerup::new(powerup_column, powerup_row);
                return true;
            }
            attempts += 1;
        }
        // The draws all landed on occupied cells: take the first free
        // interior cell instead, scanning row by row.
        let mut row_number: usize = 1;
        while row_number < height - 1
            invariant
                *self == *old(self),
                width == old(self).game_area.width,
                height == old(self).game_area.height,
                3 <= width,
                3 <= height,
                1 <= row_number <= height - 1,
                forall|c: int, r: int|
                    1 <= c < width - 1 && 1 <= r < row_number ==> !(old(self).spec_cell(c, r) is Empty),
            decreases height - 1 - row_number,
        {
            let mut column_number: usize = 1;
            while column_number < width - 1
                invariant
                    *self == *old(self),
                    width == old(self).game_area.width,
                    height == old(self).game_area.height,
                    3 <= width,
                    3 <= height,
                    1 <= row_number < height - 1,
                    1 <= column_number <= width - 1,
                    forall|c: int, r: int|
                        1 <= c < width - 1 && 1 <= r < row_number ==> !(old(self).spec_cell(c, r) is Empty),
                    forall|c: int|
                        1 <= c < column_number ==> !(old(self).spec_cell(c, row_number as int) is Empty),
                decreases width - 1 - column_number,
            {
                if determine_game_cell(self, column_number, row_number) == GameCell::Empty {
                    self.powerup = Powerup::new(column_number, row_number);
                    return true;
                }
                column_number += 1;
            }
            row_number += 1;
        }
        false
    }
}

/// A keypress as the session loop hands it to the simulation: a printable
/// character, an arrow key, or anything else.
#[derive(PartialEq, Eq, Structural, Clone, Copy, Debug)]
pub enum InputKey {
    Char(char),
    Left,
    Right,
    Up,
    Down,
    Other,
}

/// The heading-change request a keypress stands for: the h/j/k/l keys and the
/// arrow keys; every other key requests nothing.
pub open spec fn key_direction(key: InputKey) -> Option<Direction> {
    match key {
        InputKey::Char(c) => if c == 'h' {
            Some(Direction::Left)
        } else if c == 'j' {
            Some(Direction::Down)
        } else if c == 'k' {
            Some(Direction::Up)
        } else if c == 'l' {
            Some(Direction::Right)
        } else {
            None
        },
        InputKey::Left => Some(Direction::Left),
        InputKey::Down => Some(Direction::Down),
        InputKey::Up => Some(Direction::Up),
        InputKey::Right => Some(Direction::Right),
        InputKey::Other => None,
    }
}

/// The cell the head would enter on the next tick.
pub open spec fn candidate_cell(s: GameState) -> GameCell {
    s.spec_cell(next_column(s.player), next_row(s.player))
}

/// The body after a growth move: the vacated head cell in front, nothing
/// removed behind.
pub open spec fn grown_tail(s: GameState) -> Seq<Position> {
    seq![s.player.head_position] + s.tail.positions@
}

/// The classification of a cell in the state reached from `s` midway through
/// a powerup tick: the head has moved onto the powerup cell and the body has
/// grown, but the powerup has not been relocated yet.
pub open spec fn after_growth_cell(s: GameState, column_number: int, row_number: int) -> GameCell {
    classify_spec(
        s.game_area,
        s.powerup.0,
        s.player.heading,
        s.powerup.0,
        grown_tail(s),
        column_number,
        row_number,
    )
}

/// True when, midway through a powerup tick from `s`, some interior cell is
/// still free for the powerup to move to.
pub open spec fn relocation_possible(s: GameState) -> bool {
    exists|c: int, r: int|
        {
            &&& 1 <= c < s.game_area.width - 1
            &&& 1 <= r < s.game_area.height - 1
            &&& after_growth_cell(s, c, r) is Empty
        }
}

impl GameState {
    /// Applies the heading-change request a keypress stands for, if any; a
    /// request that is not orthogonal to the current heading is silently
    /// ignored. Nothing else of the state changes.
    pub fn handle_input(&mut self, input: InputKey)
        ensures
            final(self).player.heading == (match key_direction(input) {
                Some(d) => heading_after(old(self).player.heading, d),
                None => old(self).player.heading,
            }),
            final(self).player.head_position == old(self).player.head_position,
            final(self).tail == old(self).tail,
            final(self).game_area == old(self).game_area,
            final(self).powerup == old(self).powerup,
            final(self).score == old(self).score,
            old(self).wf() ==> final(self).wf(),
    {
        let direction = match input {
            InputKey::Char('h') | InputKey::Left => Some(Direction::Left),
            InputKey::Char('j') | InputKey::Down => Some(Direction::Down),
            InputKey::Char('k') | InputKey::Up => Some(Direction::Up),
            InputKey::Char('l') | InputKey::Right => Some(Direction::Right),
            _ => None,
        };
        if let Some(dir) = direction {
            self.player.change_heading(dir);
        }
    }

    /// Advances the simulation one tick. The head steps one cell along its
    /// heading; the cell it lands on decides the outcome: Edge or Tail ends
    /// the session with the state untouched, Empty shifts the body along,
    /// and Powerup grows the body, scores a point and relocates the powerup.
    /// The candidate cell can never classify as Head, since the head always
    /// leaves its cell. When the powerup finds no free cell to move to — the
    /// snake fills the whole interior — the session ends rather than loop.
    pub fn tick(&mut self) -> (outcome: TickOutcome)
        requires
            old(self).wf(),
        ensures
            final(self).game_area == old(self).game_area,
            final(self).player.heading == old(self).player.heading,
            candidate_cell(*old(self)) is Edge || candidate_cell(*old(self)) is Tail ==> outcome
                == TickOutcome::Terminated && *final(self) == *old(self),
            candidate_cell(*old(self)) is Empty ==> ({
                &&& outcome == TickOutcome::Continued
                &&& final(self).player.head_position.column_number == next_column(old(self).player)
                &&& final(self).player.head_position.row_number == next_row(old(self).player)
                &&& final(self).tail.positions@ == seq![old(self).player.head_position] + old(
                    self,
                ).tail.positions@.drop_last()
                &&& final(self).tail.positions@.len() == old(self).tail.positions@.len()
                &&& final(self).powerup == old(self).powerup
                &&& final(self).score == old(self).score
                &&& final(self).wf()
            }),
            candidate_cell(*old(self)) is Powerup ==> ({
                &&& final(self).player.head_position == old(self).powerup.0
                &&& final(self).tail.positions@ == grown_tail(*old(self))
                &&& final(self).tail.positions@.len() == old(self).tail.positions@.len() + 1
                &&& final(self).score == old(self).score + 1
                &&& (relocation_possible(*old(self)) ==> {
                    &&& outcome == TickOutcome::PowerupConsumed
                    &&& in_interior(old(self).game_area, final(self).powerup.0)
                    &&& after_growth_cell(
                        *old(self),
                        final(self).powerup.0.column_number as int,
                        final(self).powerup.0.row_number as int,
                    ) is Empty
                    &&& final(self).wf()
                })
                &&& (!relocation_possible(*old(self)) ==> {
                    &&& outcome == TickOutcome::Terminated
                    &&& final(self).powerup == old(self).powerup
                })
            }),
            !(candidate_cell(*old(self)) is Head),
    {
        let next_position = self.player.calculate_new_position();

        let next_game_cell: GameCell = determine_game_cell(
            self,
            next_position.column_number,
            next_position.row_number,
        );

        match next_game_cell {
            GameCell::Empty => {
                let previous_position = self.player.move_player(next_position);
                self.tail.positions.push_front(previous_position);
                let _ = self.tail.positions.pop_back();
                proof {
                    assert(final(self).tail.positions@ =~= seq![old(self).player.head_position]
                        + old(self).tail.positions@.drop_last());
                }
                TickOutcome::Continued
            },
            GameCell::Powerup => {
                proof {
                    // The body holds one segment more than the score and its
                    // length fits a machine word, so the new score does too.
                    assert(self.tail.positions.len() == self.score + 1);
                }
                self.score = self.score + 1;
                let previous_position = self.player.move_player(next_position);
                self.tail.positions.push_front(previous_position);
                proof {
                    let mid = *self;
                    assert(forall|c: int, r: int|
                        #![trigger mid.spec_cell(c, r)]
                        #![trigger after_growth_cell(*old(self), c, r)]
                        mid.spec_cell(c, r) == after_growth_cell(*old(self), c, r));
                }
                let found = self.randomize_powerup_position();
                if found {
                    TickOutcome::PowerupConsumed
                } else {
                    TickOutcome::Terminated
                }
            },
            GameCell::Tail => TickOutcome::Terminated,
            GameCell::Edge(_) => TickOutcome::Terminated,
            GameCell::Head(_) => {
                proof {
                    assert(false);
                }
                vstd::pervasive::unreached()
            },
        }
    }
}

impl GameState {
    /// The renderable snapshot: one row of classified cells per board row,
    /// top to bottom, each row left to right. Painting it is the
    /// presentation layer's business; this is a pure read of the state.
    pub fn board_rows(&self) -> (rows: Vec<Vec<GameCell>>)
        requires
            1 <= self.game_area.width,
            1 <= self.game_area.height,
        ensures
            rows@.len() == self.game_area.height,
            forall|r: int| 0 <= r < rows@.len() ==> #[trigger] rows@[r]@.len() == self.game_area.width,
            forall|r: int, c: int|
                0 <= r < self.game_area.height && 0 <= c < self.game_area.width ==> rows@[r]@[c]
                    == self.spec_cell(c, r),
    {
        let mut rows: Vec<Vec<GameCell>> = Vec::new();
        let mut row_index: usize = 0;
        while row_index < self.game_area.height
            invariant
                row_index <= self.game_area.height,
                1 <= self.game_area.width,
                rows@.len() == row_index,
                forall|r: int| 0 <= r < row_index ==> #[trigger] rows@[r]@.len() == self.game_area.width,
                forall|r: int, c: int|
                    0 <= r < row_index && 0 <= c < self.game_area.width ==> rows@[r]@[c]
                        == self.spec_cell(c, r),
            decreases self.game_area.height - row_index,
        {
            let mut row: Vec<GameCell> = Vec::new();
            let mut column_index: usize = 0;
            while column_index < self.game_area.width
                invariant
                    column_index <= self.game_area.width,
                    1 <= self.game_area.width,
                    row_index < self.game_area.height,
                    row@.len() == column_index,
                    forall|c: int|
                        0 <= c < column_index ==> row@[c] == self.spec_cell(c, row_index as int),
                decreases self.game_area.width - column_index,
            {
                row.push(determine_game_cell(self, column_index, row_index));
                column_index += 1;
            }
            rows.push(row);
            row_index += 1;
        }
        rows
    }
}

impl Default for GameState {
    /// The default session: a 60 by 25 board.
    fn default() -> (s: GameState)
        ensures
            s.game_area == (GameArea { width: 60, height: 25 }),
            s.score == 0,
            s.wf(),
    {
        Self::new(60, 25)
    }
}

} // verus!
