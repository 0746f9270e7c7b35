//! The course of a demonstration: when to train and when to draw.
use vstd::prelude::*;

verus! {

/// Where a demonstration stands: whether it trains on its own, and how many
/// generations it has trained. Before the first picture has been drawn the
/// generation is minus one.
#[derive(Debug, Clone, Copy, PartialEq, Eq, Structural)]
pub struct Session {
    pub auto_play: bool,
    pub generation: i32,
}

/// What one turn of the demonstration has to do.
#[derive(Debug, Clone, Copy, PartialEq, Eq, Structural)]
pub struct Turn {
    /// Draw fresh points and train on them.
    pub train: bool,
    /// Ask the network about every point and draw the picture anew.
    pub draw: bool,
}

/// The menu item that trains one generation.
pub const NEXT: usize = 0;

/// The menu item that starts training on every turn.
pub const AUTORUN_START: usize = 1;

/// The menu item that stops training on every turn.
pub const AUTORUN_STOP: usize = 2;

/// Whether the session trains on its own once the menu item `pressed` has
/// been seen to.
pub open spec fn auto_play_after(auto_play: bool, pressed: Option<usize>) -> bool {
    if pressed == Some(AUTORUN_START) {
        true
    } else if pressed == Some(AUTORUN_STOP) {
        false
    } else {
        auto_play
    }
}

/// Whether a turn trains: `NEXT` trains once, and every other turn trains
/// exactly when the session trains on its own.
pub open spec fn trains(auto_play: bool, pressed: Option<usize>) -> bool {
    pressed == Some(NEXT) || auto_play_after(auto_play, pressed)
}

/// The generation after a turn: one more where the turn trained; and where
/// that leaves minus one, the mark of a session without a picture, zero.
pub open spec fn generation_after(generation: i32, train: bool) -> int {
    let counted = if train {
        generation + 1
    } else {
        generation as int
    };
    if counted == -1 {
        0
    } else {
        counted
    }
}

impl Session {
    /// A session that has drawn nothing yet and waits for the menu.
    pub fn start() -> (session: Session)
        ensures
            !session.auto_play,
            session.generation == -1,
    {
        Session { auto_play: false, generation: -1 }
    }

    /// Whether the next turn trains, should the menu item `pressed` be
    /// seen to in it.
    pub fn will_train(&self, pressed: Option<usize>) -> (train: bool)
        ensures
            train == trains(self.auto_play, pressed),
    {
        match pressed {
            Some(id) => id == NEXT || id == AUTORUN_START || (id != AUTORUN_STOP
                && self.auto_play),
            None => self.auto_play,
        }
    }

    /// One turn: sees to the menu item `pressed`, if any, and says what the
    /// turn has to do. A turn that trains begins a new generation. A turn
    /// draws when it trains, and on the very first turn; after the first
    /// picture the generation is at least zero.
    pub fn turn(&mut self, pressed: Option<usize>) -> (turn: Turn)
        requires
            trains(old(self).auto_play, pressed) ==> old(self).generation < i32::MAX,
        ensures
            final(self).auto_play == auto_play_after(old(self).auto_play, pressed),
            turn.train == trains(old(self).auto_play, pressed),
            turn.draw == (turn.train || old(self).generation == -1),
            final(self).generation != -1,
            final(self).generation == generation_after(old(self).generation, turn.train),
    {
        let mut train = self.auto_play;
        match pressed {
            Some(id) => {
                if id == NEXT {
                    train = true;
                } else if id == AUTORUN_START {
                    self.auto_play = true;
                    train = true;
                } else if id == AUTORUN_STOP {
                    self.auto_play = false;
                    train = false;
                }
            },
            None => {},
        }
        if train {
            self.generation += 1;
        }
        let draw = train || self.generation == -1;
        if self.generation == -1 {
            self.generation = 0;
        }
        Turn { train, draw }
    }
}

} // verus!
