use vstd::prelude::*;

verus! {

/// The round's state.
#[derive(Clone, Copy, Debug, PartialEq, Eq, Structural)]
pub enum AppState {
    /// A new game: scores are zero and the ball waits at the center.
    Start,
    /// Between rallies: the ball waits at the center with its serve velocity.
    Serve,
    /// The rally is on.
    Play,
    /// A player has won; only a restart leaves this state.
    Done,
}

impl AppState {
    /// The state that the advance trigger (the enter key) leads to.
    pub open spec fn confirmed(self) -> AppState {
        match self {
            AppState::Start => AppState::Serve,
            AppState::Serve => AppState::Play,
            AppState::Play => AppState::Play,
            AppState::Done => AppState::Done,
        }
    }

    /// The state after the advance trigger: `Start` moves to `Serve` and
    /// `Serve` to `Play`; in `Play` and `Done` it changes nothing.
    pub fn after_confirm(self) -> (r: AppState)
        ensures
            r == self.confirmed(),
    {
        match self {
            AppState::Start => AppState::Serve,
            AppState::Serve => AppState::Play,
            AppState::Play => AppState::Play,
            AppState::Done => AppState::Done,
        }
    }
}

} // verus!
