//! Top-level view state machine.
//!
//! It arbitrates which sub-view is active, consumes the two-key chords that
//! switch major views, and remembers the previously active view so the
//! player overlay can delegate part of its rendering back to it. Keystroke
//! routing and rendering themselves happen in the binary; this machine only
//! decides where each key and each drawing pass should go.

use vstd::prelude::*;
use crate::keys::Key;

verus! {

/// The major views of the client.
#[derive(Clone, Copy, Debug, PartialEq, Eq, Structural)]
pub enum State {
    Home,
    HelpMode,
    Global,
    Search,
    History,
    UserPlaylist,
    SongPlayer,
}

/// Where a key that is not part of a chord must be delivered.
#[derive(Clone, Copy, Debug, PartialEq, Eq, Structural)]
pub enum Route {
    /// Hand the key to the search sub-view.
    ToSearch,
    /// Hand the key to the history sub-view.
    ToHistory,
    /// Hand the key to the user-playlist sub-view.
    ToUserPlaylist,
    /// Hand the key to the player; while the player overlay is active it
    /// receives every key, even though rendering may be delegated.
    ToPlayer,
    /// The machine consumed the key itself (or ignored it).
    Consumed,
}

/// Top-level state: the active view, the help overlay flag, the exit flag,
/// and the view that was active before the player overlay took over.
pub struct App {
    pub state: State,
    pub help_mode: bool,
    pub exit: bool,
    pub prev_state: Option<State>,
}

/// The state after the selector key of a `:`-chord is applied.
pub open spec fn chord_step(a: App, selector: Key) -> App {
    match selector {
        Key::Char(c) => {
            if c == 's' {
                App { state: State::Search, ..a }
            } else if c == 'u' {
                App { state: State::UserPlaylist, ..a }
            } else if c == 'h' {
                App { state: State::History, ..a }
            } else if c == 'p' {
                App { state: State::SongPlayer, prev_state: Some(a.state), ..a }
            } else if c == '?' {
                App { state: State::HelpMode, help_mode: true, ..a }
            } else if c == 'q' {
                App { exit: true, ..a }
            } else {
                a
            }
        },
        _ => a,
    }
}

/// The state after a non-chord key: only help mode reacts here (escape
/// leaves it); every other view leaves its state untouched and lets the key
/// travel on to the routed sub-view.
pub open spec fn global_step(a: App, key: Key) -> App {
    if a.state is HelpMode && key is Esc {
        App { state: State::Global, help_mode: false, ..a }
    } else {
        a
    }
}

/// Which handler a non-chord key is routed to, given the active view.
pub open spec fn route_of(a: App) -> Route {
    match a.state {
        State::Search => Route::ToSearch,
        State::History => Route::ToHistory,
        State::UserPlaylist => Route::ToUserPlaylist,
        State::SongPlayer => Route::ToPlayer,
        _ => Route::Consumed,
    }
}

/// Which view's body the next drawing pass shows. The player overlay
/// delegates its body back to the remembered view when that view is the
/// search or the history view; help mode always shows the help body.
pub open spec fn body_view_of(a: App) -> Option<State> {
    if a.help_mode {
        Some(State::HelpMode)
    } else {
        match a.state {
            State::Search => Some(State::Search),
            State::History => Some(State::History),
            State::UserPlaylist => Some(State::UserPlaylist),
            State::SongPlayer => match a.prev_state {
                Some(State::Search) => Some(State::Search),
                Some(State::History) => Some(State::History),
                _ => None,
            },
            _ => None,
        }
    }
}

impl App {
    /// A freshly started client: global view, no overlay, not exiting.
    pub fn new() -> (a: App)
        ensures
            a.state == State::Global,
            !a.help_mode,
            !a.exit,
            a.prev_state is None,
    {
        App { state: State::Global, help_mode: false, exit: false, prev_state: None }
    }

    /// Whether this key opens a two-key chord; the caller must then fetch
    /// the selector key and apply `handle_chord`.
    pub fn starts_chord(key: Key) -> (r: bool)
        ensures
            r == (key == Key::Char(':')),
    {
        match key {
            Key::Char(c) => c == ':',
            _ => false,
        }
    }

    /// Applies the selector key of a chord: `s`, `u`, `h` switch views, `p`
    /// opens the player overlay and remembers the current view, `?` opens
    /// help, `q` asks to exit, anything else is ignored.
    pub fn handle_chord(&mut self, selector: Key)
        ensures
            *final(self) == chord_step(*old(self), selector),
    {
        match selector {
            Key::Char(c) => {
                if c == 's' {
                    self.state = State::Search;
                } else if c == 'u' {
                    self.state = State::UserPlaylist;
                } else if c == 'h' {
                    self.state = State::History;
                } else if c == 'p' {
                    self.prev_state = Some(self.state);
                    self.state = State::SongPlayer;
                } else if c == '?' {
                    self.help_mode = true;
                    self.state = State::HelpMode;
                } else if c == 'q' {
                    self.exit = true;
                }
            },
            _ => {},
        }
    }

    /// Handles a key that is not part of a chord: help mode consumes it
    /// (escape closes help), every other view passes it on unchanged and the
    /// returned route says which sub-view handler receives it.
    pub fn handle_global_key(&mut self, key: Key) -> (r: Route)
        ensures
            *final(self) == global_step(*old(self), key),
            r == route_of(*old(self)),
    {
        match self.state {
            State::HelpMode => {
                match key {
                    Key::Esc => {
                        self.state = State::Global;
                        self.help_mode = false;
                    },
                    _ => {},
                }
                Route::Consumed
            },
            State::Search => Route::ToSearch,
            State::History => Route::ToHistory,
            State::UserPlaylist => Route::ToUserPlaylist,
            State::SongPlayer => Route::ToPlayer,
            _ => Route::Consumed,
        }
    }

    /// Which view's body the next drawing pass shows, if any.
    pub fn body_view(&self) -> (r: Option<State>)
        ensures
            r == body_view_of(*self),
    {
        if self.help_mode {
            Some(State::HelpMode)
        } else {
            match self.state {
                State::Search => Some(State::Search),
                State::History => Some(State::History),
                State::UserPlaylist => Some(State::UserPlaylist),
                State::SongPlayer => match self.prev_state {
                    Some(State::Search) => Some(State::Search),
                    Some(State::History) => Some(State::History),
                    _ => None,
                },
                _ => None,
            }
        }
    }

    /// While the player overlay is active, keys always go to the player,
    /// whatever view its rendering is delegated to: the remembered view can
    /// shape the body, never receive the key.
    pub proof fn lemma_player_keeps_keys(a: App)
        requires
            a.state is SongPlayer,
        ensures
            route_of(a) == Route::ToPlayer,
    {
    }
}

} // verus!
