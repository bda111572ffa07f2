//! The game state machine: which phase the game is in, how far the current
//! picture has faded in, and how long the phase has lasted.
//!
//! `Init` leads to `Title` at once. `Title`, `Won` and `Lost` each last
//! `SCREEN_TIME` milliseconds while their picture fades in; `Title` then
//! leads to `Playing`, the other two back to `Init`. `Playing` lasts until
//! the game is won or lost.

use crate::sprite::GameEvent;
use crate::texture::FADE_ONE;
use vstd::prelude::*;

verus! {

/// Milliseconds that the title and the end pictures are shown.
pub const SCREEN_TIME: u32 = 3000;

/// The phases of the game.
#[derive(Debug, Clone, Copy, PartialEq, Eq, Structural)]
pub enum Phase {
    Init,
    Title,
    Playing,
    Won,
    Lost,
}

/// The state of the game between two frames. The fade counts in
/// 1/`FADE_ONE`, the timer in milliseconds.
#[derive(Debug, Clone, Copy, PartialEq, Eq, Structural)]
pub struct GameState {
    pub phase: Phase,
    pub fade: u32,
    pub timer: u32,
}

/// The fade `fade` after `dt` more milliseconds: it rises by one step per
/// millisecond and stops at `FADE_ONE`.
pub open spec fn ramped(fade: int, dt: int) -> int {
    if fade + dt > FADE_ONE {
        FADE_ONE as int
    } else {
        fade + dt
    }
}

/// The state at the start of phase `phase`.
pub open spec fn entering(phase: Phase) -> GameState {
    GameState { phase, fade: 0, timer: 0 }
}

/// The phase that follows when the picture of `phase` was shown long
/// enough.
pub open spec fn phase_after_screen(phase: Phase) -> Phase {
    match phase {
        Phase::Title => Phase::Playing,
        _ => Phase::Init,
    }
}

/// The state that follows `s` after a frame of `dt` milliseconds in which
/// `event` happened. Events count only while playing.
pub open spec fn next_state(s: GameState, dt: int, event: GameEvent) -> GameState {
    match s.phase {
        Phase::Init => entering(Phase::Title),
        Phase::Playing => match event {
            GameEvent::Win => entering(Phase::Won),
            GameEvent::Lose => entering(Phase::Lost),
            GameEvent::Nothing => s,
        },
        _ => if s.timer + dt >= SCREEN_TIME {
            entering(phase_after_screen(s.phase))
        } else {
            GameState {
                phase: s.phase,
                fade: ramped(s.fade as int, dt) as u32,
                timer: (s.timer + dt) as u32,
            }
        },
    }
}

/// The more decisive of two events: losing outweighs winning, and winning
/// outweighs nothing.
pub open spec fn weightier(a: GameEvent, b: GameEvent) -> GameEvent {
    if a == GameEvent::Lose || b == GameEvent::Lose {
        GameEvent::Lose
    } else if a == GameEvent::Win || b == GameEvent::Win {
        GameEvent::Win
    } else {
        GameEvent::Nothing
    }
}

/// Picks the more decisive of two events.
pub fn combine(a: GameEvent, b: GameEvent) -> (r: GameEvent)
    ensures
        r == weightier(a, b),
{
    match (a, b) {
        (GameEvent::Lose, _) => GameEvent::Lose,
        (_, GameEvent::Lose) => GameEvent::Lose,
        (GameEvent::Win, _) => GameEvent::Win,
        (_, GameEvent::Win) => GameEvent::Win,
        _ => GameEvent::Nothing,
    }
}

impl GameState {
    /// The fade stays within one and the timer within the time of a
    /// picture.
    pub open spec fn wf(&self) -> bool {
        self.fade <= FADE_ONE && self.timer < SCREEN_TIME
    }

    /// The state in which every game starts.
    pub fn new() -> (s: GameState)
        ensures
            s == entering(Phase::Init),
            s.wf(),
    {
        GameState { phase: Phase::Init, fade: 0, timer: 0 }
    }

    /// The fade at which the picture of this frame is shown, `dt`
    /// milliseconds after the last one.
    pub fn fade_after(&self, dt: u32) -> (fade: u32)
        requires
            self.wf(),
        ensures
            fade == ramped(self.fade as int, dt as int),
            fade <= FADE_ONE,
    {
        if self.fade as u64 + dt as u64 > FADE_ONE as u64 {
            FADE_ONE
        } else {
            self.fade + dt
        }
    }

    /// The state after a frame of `dt` milliseconds in which `event`
    /// happened.
    pub fn advance(&self, dt: u32, event: GameEvent) -> (next: GameState)
        requires
            self.wf(),
        ensures
            next == next_state(*self, dt as int, event),
            next.wf(),
    {
        match self.phase {
            Phase::Init => GameState { phase: Phase::Title, fade: 0, timer: 0 },
            Phase::Playing => match event {
                GameEvent::Win => GameState { phase: Phase::Won, fade: 0, timer: 0 },
                GameEvent::Lose => GameState { phase: Phase::Lost, fade: 0, timer: 0 },
                GameEvent::Nothing => *self,
            },
            Phase::Title => {
                if self.timer as u64 + dt as u64 >= SCREEN_TIME as u64 {
                    GameState { phase: Phase::Playing, fade: 0, timer: 0 }
                } else {
                    GameState {
                        phase: Phase::Title,
                        fade: self.fade_after(dt),
                        timer: self.timer + dt,
                    }
                }
            },
            Phase::Won | Phase::Lost => {
                if self.timer as u64 + dt as u64 >= SCREEN_TIME as u64 {
                    GameState { phase: Phase::Init, fade: 0, timer: 0 }
                } else {
                    GameState {
                        phase: self.phase,
                        fade: self.fade_after(dt),
                        timer: self.timer + dt,
                    }
                }
            },
        }
    }
}

/// No phase is skipped: a frame leaves the phase as it is or leads to the
/// one phase that can follow it.
pub proof fn lemma_no_phase_skipped(s: GameState, dt: int, event: GameEvent)
    requires
        s.wf(),
        0 <= dt,
    ensures
        ({
            let next = next_state(s, dt, event).phase;
            match s.phase {
                Phase::Init => next == Phase::Title,
                Phase::Title => next == Phase::Title || next == Phase::Playing,
                Phase::Playing => next == Phase::Playing || next == Phase::Won || next
                    == Phase::Lost,
                Phase::Won => next == Phase::Won || next == Phase::Init,
                Phase::Lost => next == Phase::Lost || next == Phase::Init,
            }
        }),
        next_state(s, dt, event).phase != s.phase ==> next_state(s, dt, event) == entering(
            next_state(s, dt, event).phase,
        ),
{
}

} // verus!
