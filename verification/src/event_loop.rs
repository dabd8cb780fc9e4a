//! What the event loop decides.
//!
//! Each turn of the loop paints the state and then waits for one of two
//! things, whichever comes first: the refresh timer, or a key. The program
//! that owns the terminal and the timer reports what came as a
//! [`Stimulus`]; the library answers with the [`Action`] to take and has by
//! then made the change of state that the stimulus asks for.

use vstd::prelude::*;
use crate::app::{after_next, after_previous, well_formed, App, AppView};

verus! {

/// The period of the refresh timer, in seconds.
pub const REFRESH_PERIOD_SECS: u64 = 2;

/// The longest that one poll for a key waits, in milliseconds.
pub const INPUT_POLL_MILLIS: u64 = 250;

/// The key that ends the loop.
pub const QUIT_KEY: char = 'q';

/// A key, as far as the dashboard tells keys apart.
#[derive(Debug, Clone, Copy, PartialEq, Eq)]
pub enum KeyCode {
    Char(char),
    Down,
    Up,
    Other,
}

/// What ended the wait of one turn of the loop.
#[derive(Debug, Clone, Copy, PartialEq, Eq)]
pub enum Stimulus {
    /// The refresh timer fired.
    RefreshDue,
    /// A key was pressed.
    Key(KeyCode),
    /// The poll for a key ran out before the timer fired.
    Idle,
}

/// What the loop does next.
#[derive(Debug, Clone, Copy, PartialEq, Eq)]
pub enum Action {
    /// Leave the loop without painting again.
    Quit,
    /// Read the sockets anew, hand the outcome to [`App::update`], and go on
    /// with the next turn.
    Refresh,
    /// Go on with the next turn.
    Continue,
}

/// The action that answers a stimulus. It does not depend on the state.
pub open spec fn action_for(stimulus: Stimulus) -> Action {
    match stimulus {
        Stimulus::RefreshDue => Action::Refresh,
        Stimulus::Key(KeyCode::Char(c)) => if c == QUIT_KEY {
            Action::Quit
        } else {
            Action::Continue
        },
        Stimulus::Key(_) => Action::Continue,
        Stimulus::Idle => Action::Continue,
    }
}

/// The state after a stimulus: the arrow keys move the cursor, and nothing
/// else changes the state.
pub open spec fn after_stimulus(state: AppView, stimulus: Stimulus) -> AppView {
    match stimulus {
        Stimulus::Key(KeyCode::Down) => after_next(state),
        Stimulus::Key(KeyCode::Up) => after_previous(state),
        _ => state,
    }
}

impl App {
    /// Takes in what ended the wait of one turn and says what the loop does
    /// next. The quit key ends the loop in whatever state the dashboard is;
    /// the arrow keys move the cursor; the timer asks for a refresh; any
    /// other key, and a poll that ran out, lead to the next turn with the
    /// state as it was.
    pub fn handle(&mut self, stimulus: Stimulus) -> (action: Action)
        ensures
            action == action_for(stimulus),
            final(self)@ == after_stimulus(old(self)@, stimulus),
            well_formed(final(self)@),
            stimulus == Stimulus::Key(KeyCode::Char(QUIT_KEY)) ==> action == Action::Quit
                && final(self)@ == old(self)@,
    {
        proof {
            self.lemma_well_formed();
        }
        match stimulus {
            Stimulus::RefreshDue => Action::Refresh,
            Stimulus::Key(key) => match key {
                KeyCode::Char(c) => if c == QUIT_KEY {
                    Action::Quit
                } else {
                    Action::Continue
                },
                KeyCode::Down => {
                    self.select_next();
                    Action::Continue
                },
                KeyCode::Up => {
                    self.select_previous();
                    Action::Continue
                },
                KeyCode::Other => Action::Continue,
            },
            Stimulus::Idle => Action::Continue,
        }
    }
}

/// The poll for a key gives up well before the refresh timer fires, so
/// that keys are answered while the next refresh is awaited.
pub proof fn lemma_poll_shorter_than_refresh()
    ensures
        INPUT_POLL_MILLIS < REFRESH_PERIOD_SECS * 1000,
{
}

/// The quit key ends the loop from every state and leaves the state as it
/// was; no other stimulus ends the loop.
pub proof fn lemma_only_quit_key_ends_loop(state: AppView, stimulus: Stimulus)
    ensures
        action_for(stimulus) == Action::Quit <==> stimulus == Stimulus::Key(
            KeyCode::Char(QUIT_KEY),
        ),
        action_for(stimulus) == Action::Quit ==> after_stimulus(state, stimulus) == state,
{
}

/// Only the arrow keys change the state, and they change nothing while an
/// error is shown.
pub proof fn lemma_only_arrow_keys_change_state(state: AppView, stimulus: Stimulus)
    ensures
        stimulus != Stimulus::Key(KeyCode::Down) && stimulus != Stimulus::Key(KeyCode::Up)
            ==> after_stimulus(state, stimulus) == state,
        state is Err ==> after_stimulus(state, stimulus) == state,
{
}

} // verus!
