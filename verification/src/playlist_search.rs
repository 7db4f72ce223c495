//! The playlist-search screen: a search sub-view and a browse sub-view
//! side by side, with a toggle that decides which of the two receives
//! keystrokes. Once per refresh tick the binary drains at most one message
//! from each background channel and hands it to `tick`.

use vstd::prelude::*;
use crate::browse::{accept_load_step, browse_step, outcome_view, SeletectPlayListView, Song};
use crate::keys::Key;
use crate::search::{
    accept_result_step, response_view, search_action, search_step, PlayListSearchComponent,
    SearchAction, SearchEntry,
};

verus! {

/// Which half of the screen receives keystrokes.
#[derive(Clone, Copy, Debug, PartialEq, Eq, Structural)]
pub enum PlayListSearchState {
    /// The search sub-view is active.
    Search,
    /// The browse ("view selected playlist") sub-view is active.
    ViewSelectedPlaylist,
}

/// The playlist-search screen.
pub struct PlayListSearch {
    pub search: PlayListSearchComponent,
    pub view: SeletectPlayListView,
    pub state: PlayListSearchState,
}

impl PlayListSearch {
    /// Validity of both sub-views.
    pub open spec fn wf(self) -> bool {
        self.search@.wf() && self.view@.wf()
    }

    /// A fresh screen: search half active, nothing fetched, pages of the
    /// given size.
    pub fn new(page_size: usize) -> (s: PlayListSearch)
        requires
            page_size > 0,
        ensures
            s.wf(),
            s.state == PlayListSearchState::Search,
            s.search.state is SearchBar,
            s.search.query@ == Seq::<char>::empty(),
            !s.search.display_content,
            s.search.selected == 0,
            s.search@.results is Absent,
            s.view@.full is None,
            s.view@.content is None,
            s.view@.max_page is None,
            s.view.offset == 0,
            s.view.selected == 0,
            s.view.page_size == page_size,
            s.view.generation == 0,
    {
        PlayListSearch {
            search: PlayListSearchComponent::new(),
            view: SeletectPlayListView::new(page_size),
            state: PlayListSearchState::Search,
        }
    }

    /// Toggles which sub-view is active.
    pub fn change_state(&mut self)
        ensures
            final(self).state == (if old(self).state is Search {
                PlayListSearchState::ViewSelectedPlaylist
            } else {
                PlayListSearchState::Search
            }),
            final(self).search == old(self).search,
            final(self).view == old(self).view,
    {
        if self.state == PlayListSearchState::ViewSelectedPlaylist {
            self.state = PlayListSearchState::Search;
        } else {
            self.state = PlayListSearchState::ViewSelectedPlaylist;
        }
    }

    /// Routes a keystroke: `[` toggles the active half unconditionally,
    /// every other key goes to the active sub-view's handler. The returned
    /// action is what the binary must still carry out.
    pub fn handle_keystrokes(&mut self, key: Key, line: &str) -> (r: SearchAction)
        requires
            old(self).wf(),
        ensures
            final(self).wf(),
            key == Key::Char('[') ==> {
                &&& final(self).state == (if old(self).state is Search {
                    PlayListSearchState::ViewSelectedPlaylist
                } else {
                    PlayListSearchState::Search
                })
                &&& final(self).search == old(self).search
                &&& final(self).view == old(self).view
                &&& r is Nothing
            },
            key != Key::Char('[') && old(self).state is Search ==> {
                &&& final(self).search@ == search_step(old(self).search@, key, line@)
                &&& r@ == search_action(old(self).search@, key, line@)
                &&& final(self).view == old(self).view
                &&& final(self).state == old(self).state
            },
            key != Key::Char('[') && old(self).state is ViewSelectedPlaylist ==> {
                &&& final(self).view@ == browse_step(old(self).view@, key)
                &&& r is Nothing
                &&& final(self).search == old(self).search
                &&& final(self).state == old(self).state
            },
    {
        let toggle = match key {
            Key::Char(c) => c == '[',
            _ => false,
        };
        if toggle {
            self.change_state();
            SearchAction::Nothing
        } else if self.state == PlayListSearchState::Search {
            self.search.handle_keystrokes(key, line)
        } else {
            self.view.handle_keystrokes(key);
            SearchAction::Nothing
        }
    }

    /// One refresh tick: consumes at most one drained message from the
    /// search-result channel and at most one from the load channel, exactly
    /// as the non-blocking per-tick receive delivered them. Absent messages
    /// leave the corresponding sub-view untouched.
    pub fn tick(
        &mut self,
        search_response: Option<Result<Vec<SearchEntry>, String>>,
        load_arrival: Option<(u64, Result<Vec<Song>, String>)>,
    )
        requires
            old(self).wf(),
            match load_arrival {
                Some((_, outcome)) => match outcome {
                    Ok(items) => items.len() + old(self).view.page_size <= usize::MAX,
                    Err(_) => true,
                },
                None => true,
            },
        ensures
            final(self).wf(),
            final(self).state == old(self).state,
            final(self).search@ == match search_response {
                Some(resp) => accept_result_step(old(self).search@, response_view(resp)),
                None => old(self).search@,
            },
            final(self).view@ == match load_arrival {
                Some((g, outcome)) => accept_load_step(
                    old(self).view@,
                    g as int,
                    outcome_view(outcome),
                ),
                None => old(self).view@,
            },
    {
        match search_response {
            Some(resp) => self.search.accept_result(resp),
            None => {},
        }
        match load_arrival {
            Some((g, outcome)) => self.view.accept_load(g, outcome),
            None => {},
        }
    }
}

} // verus!
