//! The playback state of one session and the transitions between its values.

use vstd::prelude::*;

verus! {

/// Where a session stands. There is one authoritative value per session; the
/// controller writes it, the decode and render loops read it once per
/// iteration.
#[derive(Clone, Copy, Debug, PartialEq, Eq, Structural)]
pub enum PlayerState {
    /// Opened, never started.
    Stopped,
    /// Started once, now held.
    Paused,
    /// Frames are being drained and shown.
    Playing,
    /// Disposal was asked for; the loops have yet to notice.
    Terminating,
    /// The decode loop has seen the request and left.
    Terminated,
}

/// What can happen to a session's state.
#[derive(Clone, Copy, Debug, PartialEq, Eq, Structural)]
pub enum Transition {
    Play,
    Pause,
    Dispose,
    /// The decode loop confirms that it has stopped.
    Acknowledge,
}

impl PlayerState {
    /// True once disposal has begun: no command brings the session back.
    pub open spec fn terminal(self) -> bool {
        self is Terminating || self is Terminated
    }

    /// The state as a signed byte, for storage in an atomic cell. Negative
    /// values are exactly the terminal states.
    pub open spec fn code_of(self) -> i8 {
        match self {
            PlayerState::Stopped => 0i8,
            PlayerState::Playing => 1i8,
            PlayerState::Paused => 2i8,
            PlayerState::Terminating => -1i8,
            PlayerState::Terminated => -2i8,
        }
    }

    /// The state that a stored byte stands for, if any.
    pub open spec fn decode(code: i8) -> Option<PlayerState> {
        if code == 0 {
            Some(PlayerState::Stopped)
        } else if code == 1 {
            Some(PlayerState::Playing)
        } else if code == 2 {
            Some(PlayerState::Paused)
        } else if code == -1 {
            Some(PlayerState::Terminating)
        } else if code == -2 {
            Some(PlayerState::Terminated)
        } else {
            None
        }
    }

    /// The state after a transition. Play and pause move any live state;
    /// disposal moves any state that has not terminated; an acknowledgement
    /// only completes a pending disposal.
    pub open spec fn step(self, t: Transition) -> PlayerState {
        match t {
            Transition::Play => if self.terminal() { self } else { PlayerState::Playing },
            Transition::Pause => if self.terminal() { self } else { PlayerState::Paused },
            Transition::Dispose => if self is Terminated {
                PlayerState::Terminated
            } else {
                PlayerState::Terminating
            },
            Transition::Acknowledge => if self is Terminating {
                PlayerState::Terminated
            } else {
                self
            },
        }
    }

    /// The state after a run of transitions, taken in order.
    pub open spec fn run(self, ts: Seq<Transition>) -> PlayerState
        decreases ts.len(),
    {
        if ts.len() == 0 {
            self
        } else {
            self.step(ts[0]).run(ts.skip(1))
        }
    }

    pub fn is_terminal(self) -> (b: bool)
        ensures
            b == self.terminal(),
    {
        match self {
            PlayerState::Terminating | PlayerState::Terminated => true,
            _ => false,
        }
    }

    /// The byte to store for the state. It reads back as the state, and is
    /// negative exactly where the state is terminal.
    pub fn code(self) -> (c: i8)
        ensures
            c == self.code_of(),
            Self::decode(c) == Some(self),
            (c < 0) == self.terminal(),
    {
        match self {
            PlayerState::Stopped => 0,
            PlayerState::Playing => 1,
            PlayerState::Paused => 2,
            PlayerState::Terminating => -1,
            PlayerState::Terminated => -2,
        }
    }

    /// Reads a stored byte back.
    pub fn from_code(code: i8) -> (s: Option<PlayerState>)
        ensures
            s == Self::decode(code),
    {
        if code == 0 {
            Some(PlayerState::Stopped)
        } else if code == 1 {
            Some(PlayerState::Playing)
        } else if code == 2 {
            Some(PlayerState::Paused)
        } else if code == -1 {
            Some(PlayerState::Terminating)
        } else if code == -2 {
            Some(PlayerState::Terminated)
        } else {
            None
        }
    }

    /// Takes one transition.
    pub fn apply(self, t: Transition) -> (next: PlayerState)
        ensures
            next == self.step(t),
    {
        match t {
            Transition::Play => if self.is_terminal() { self } else { PlayerState::Playing },
            Transition::Pause => if self.is_terminal() { self } else { PlayerState::Paused },
            Transition::Dispose => match self {
                PlayerState::Terminated => PlayerState::Terminated,
                _ => PlayerState::Terminating,
            },
            Transition::Acknowledge => match self {
                PlayerState::Terminating => PlayerState::Terminated,
                _ => self,
            },
        }
    }
}

/// Disposal is final. From the moment it is asked for, whatever commands
/// follow, the session stays disposed; playing and pausing change nothing
/// at all.
pub proof fn lemma_disposed_stays(s: PlayerState, ts: Seq<Transition>)
    ensures
        s.step(Transition::Dispose).terminal(),
        s.terminal() ==> s.run(ts).terminal(),
        s.terminal() ==> s.step(Transition::Play) == s && s.step(Transition::Pause) == s,
    decreases ts.len(),
{
    if ts.len() > 0 {
        lemma_disposed_stays(s.step(ts[0]), ts.skip(1));
    }
}

} // verus!
