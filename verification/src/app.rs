//! The application shell around the simulation: which screen is showing,
//! the score of the finished session, and the high score to beat. The
//! surrounding program draws the screens and polls the keyboard; the
//! decisions live here.

use crate::game::{GameArea, GameState};
use vstd::prelude::*;

verus! {

/// Which screen the application is showing.
#[derive(PartialEq, Eq, Structural, Clone, Copy, Debug)]
pub enum Screen {
    Welcome,
    GamePlay,
    Score,
}

/// The screen that follows `current`: the welcome banner leads into play,
/// play into the score board, and the score board back to the banner.
pub open spec fn next_screen(current: Screen) -> Screen {
    match current {
        Screen::Welcome => Screen::GamePlay,
        Screen::GamePlay => Screen::Score,
        Screen::Score => Screen::Welcome,
    }
}

/// The application's state across game sessions.
pub struct App {
    pub state: Screen,
    pub game_state: GameState,
    pub score: Option<u16>,
    pub high_score: u16,
    pub width: u8,
    pub height: u8,
}

impl App {
    pub fn new(high_score: u16, width: u8, height: u8) -> (app: App)
        requires
            5 <= width,
            5 <= height,
        ensures
            app.state == Screen::Welcome,
            app.score is None,
            app.high_score == high_score,
            app.width == width,
            app.height == height,
            app.game_state.game_area == (GameArea {
                width: width as usize,
                height: height as usize,
            }),
            app.game_state.score == 0,
            app.game_state.wf(),
    {
        Self {
            state: Screen::Welcome,
            game_state: GameState::new(width as usize, height as usize),
            score: None,
            high_score,
            width,
            height,
        }
    }

    /// Steps to the next screen: Welcome, then GamePlay, then Score, then
    /// around again. Nothing else of the state changes.
    pub fn change_screen(&mut self)
        ensures
            final(self).state == next_screen(old(self).state),
            final(self).game_state == old(self).game_state,
            final(self).score == old(self).score,
            final(self).high_score == old(self).high_score,
            final(self).width == old(self).width,
            final(self).height == old(self).height,
    {
        self.state = match self.state {
            Screen::Welcome => Screen::GamePlay,
            Screen::GamePlay => Screen::Score,
            Screen::Score => Screen::Welcome,
        };
    }

    /// Records a finished session's score, raises the high score when it was
    /// beaten, and reports whether it was.
    pub fn record_score(&mut self, score: u16) -> (new_high: bool)
        ensures
            final(self).score == Some(score),
            new_high == (score > old(self).high_score),
            final(self).high_score == (if score > old(self).high_score {
                score
            } else {
                old(self).high_score
            }),
            final(self).state == old(self).state,
            final(self).game_state == old(self).game_state,
            final(self).width == old(self).width,
            final(self).height == old(self).height,
    {
        self.score = Some(score);
        if score > self.high_score {
            self.high_score = score;
            true
        } else {
            false
        }
    }
}

impl Default for App {
    /// A fresh application: no score yet, nothing beaten, a 60 by 25 board.
    fn default() -> (app: App)
        ensures
            app.state == Screen::Welcome,
            app.score is None,
            app.high_score == 0,
            app.width == 60,
            app.height == 25,
            app.game_state.wf(),
    {
        Self::new(0, 60, 25)
    }
}

} // verus!
