//! Playlist-search sub-view.
//!
//! The sub-view owns the submitted query, the list of collections the
//! content provider returned for it, and the selection cursor over that
//! list. It is a two-mode machine: in `SearchBar` mode keys edit the query
//! line (held by the binary's text widget), and submit dispatches a
//! debounced background query; in `SearchResult` mode keys move the cursor
//! and confirm hands the highlighted collection id to the browse sub-view.
//! The background work itself is performed by the binary; this module only
//! decides, exactly, what each key does to the state and which action the
//! binary must carry out.

use vstd::prelude::*;
use crate::cursor::{cursor_down, cursor_down_spec, cursor_in_bounds, cursor_up, cursor_up_spec};
use crate::keys::Key;
use crate::text::{trim, trimmed};

verus! {

/// One entry of a search result: a collection's title, its opaque id, and
/// the authors it is labeled with.
pub struct SearchEntry {
    pub title: String,
    pub id: String,
    pub authors: Vec<String>,
}

/// The mathematical value of a `SearchEntry`.
pub struct SearchEntryV {
    pub title: Seq<char>,
    pub id: Seq<char>,
    pub authors: Seq<Seq<char>>,
}

impl View for SearchEntry {
    type V = SearchEntryV;

    open spec fn view(&self) -> SearchEntryV {
        SearchEntryV { title: self.title@, id: self.id@, authors: self.authors.deep_view() }
    }
}

impl DeepView for SearchEntry {
    type V = SearchEntryV;

    open spec fn deep_view(&self) -> SearchEntryV {
        self.view()
    }
}

/// What the sub-view holds in place of a result list.
pub enum SearchResults {
    /// No query has completed yet (or the last submit cleared the slot).
    Absent,
    /// The provider answered with an ordered list of collections.
    Loaded(Vec<SearchEntry>),
    /// The provider failed; the message is shown in place of a list.
    Failed(String),
}

/// The mathematical value of `SearchResults`.
pub enum SearchResultsV {
    Absent,
    Loaded(Seq<SearchEntryV>),
    Failed(Seq<char>),
}

impl View for SearchResults {
    type V = SearchResultsV;

    open spec fn view(&self) -> SearchResultsV {
        match self {
            SearchResults::Absent => SearchResultsV::Absent,
            SearchResults::Loaded(v) => SearchResultsV::Loaded(v.deep_view()),
            SearchResults::Failed(e) => SearchResultsV::Failed(e@),
        }
    }
}

/// What the binary must do after a keystroke was handled.
pub enum SearchAction {
    /// Nothing; the state change (if any) is all there was to it.
    Nothing,
    /// Forward the keystroke verbatim to the query-line text widget.
    EditInput,
    /// Spawn a debounced background query for this trimmed query string.
    SpawnQuery(String),
    /// Hand this collection id to the browse sub-view over the selection
    /// relay, as a fire-and-forget background send.
    SendId(String),
}

/// The mathematical value of a `SearchAction`.
pub enum SearchActionV {
    Nothing,
    EditInput,
    SpawnQuery(Seq<char>),
    SendId(Seq<char>),
}

impl View for SearchAction {
    type V = SearchActionV;

    open spec fn view(&self) -> SearchActionV {
        match self {
            SearchAction::Nothing => SearchActionV::Nothing,
            SearchAction::EditInput => SearchActionV::EditInput,
            SearchAction::SpawnQuery(q) => SearchActionV::SpawnQuery(q@),
            SearchAction::SendId(i) => SearchActionV::SendId(i@),
        }
    }
}

/// The two modes of the sub-view.
#[derive(Clone, Copy, Debug, PartialEq, Eq, Structural)]
pub enum PlayListSearchComponentState {
    /// Keys edit the query line; enter submits it.
    SearchBar,
    /// Keys move the cursor over the result list; enter confirms.
    SearchResult,
}

/// The search sub-view: mode, last submitted query, whether fetched content
/// may be displayed, the cursor, and the result slot.
pub struct PlayListSearchComponent {
    pub state: PlayListSearchComponentState,
    pub query: String,
    pub display_content: bool,
    pub selected: usize,
    pub results: SearchResults,
}

/// The mathematical state of the sub-view.
pub struct SearchModel {
    pub state: PlayListSearchComponentState,
    pub query: Seq<char>,
    pub display_content: bool,
    pub selected: int,
    pub results: SearchResultsV,
}

impl View for PlayListSearchComponent {
    type V = SearchModel;

    open spec fn view(&self) -> SearchModel {
        SearchModel {
            state: self.state,
            query: self.query@,
            display_content: self.display_content,
            selected: self.selected as int,
            results: self.results@,
        }
    }
}

/// The length of the currently held result list (0 when absent or failed).
pub open spec fn list_len(m: SearchModel) -> int {
    match m.results {
        SearchResultsV::Loaded(v) => v.len() as int,
        _ => 0,
    }
}

impl SearchModel {
    /// Validity: the cursor sits inside the current list.
    pub open spec fn wf(self) -> bool {
        cursor_in_bounds(self.selected, list_len(self))
    }
}

/// Where the cursor lands when a freshly arrived list replaces the old one:
/// it keeps its position where that still exists, and is clamped to the new
/// end (or to 0 for an empty list) where it does not.
pub open spec fn clamp_cursor(sel: int, len: int) -> int {
    if len == 0 {
        0
    } else if sel < len {
        sel
    } else {
        len - 1
    }
}

/// The state after a key in `SearchBar` mode. Submit clears the displayed
/// content and resets the cursor whatever the prior state was; the query is
/// replaced wholesale by the trimmed line, and only when that line is not
/// empty. Every other key goes to the text widget and changes nothing here.
pub open spec fn search_bar_step(m: SearchModel, key: Key, line: Seq<char>) -> SearchModel {
    if key is Enter {
        let q = if trimmed(line).len() > 0 {
            trimmed(line)
        } else {
            m.query
        };
        SearchModel { display_content: false, selected: 0, query: q, ..m }
    } else {
        m
    }
}

/// The action a key in `SearchBar` mode asks of the binary.
pub open spec fn search_bar_action(m: SearchModel, key: Key, line: Seq<char>) -> SearchActionV {
    if key is Enter {
        if trimmed(line).len() > 0 {
            SearchActionV::SpawnQuery(trimmed(line))
        } else {
            SearchActionV::Nothing
        }
    } else {
        SearchActionV::EditInput
    }
}

/// The state after a key in `SearchResult` mode: down and up move the
/// cursor with saturation; everything else leaves the state as it is.
pub open spec fn search_result_step(m: SearchModel, key: Key) -> SearchModel {
    if key is Down || key == Key::Char('j') {
        SearchModel { selected: cursor_down_spec(m.selected, list_len(m)), ..m }
    } else if key is Up || key == Key::Char('k') {
        SearchModel { selected: cursor_up_spec(m.selected), ..m }
    } else {
        m
    }
}

/// The action a key in `SearchResult` mode asks of the binary: confirm
/// sends the id of the highlighted entry, when there is one.
pub open spec fn search_result_action(m: SearchModel, key: Key) -> SearchActionV {
    if key is Enter {
        match m.results {
            SearchResultsV::Loaded(v) => {
                if 0 <= m.selected < v.len() {
                    SearchActionV::SendId(v[m.selected].id)
                } else {
                    SearchActionV::Nothing
                }
            },
            _ => SearchActionV::Nothing,
        }
    } else {
        SearchActionV::Nothing
    }
}

/// The state after any key: tab toggles the mode unconditionally, every
/// other key goes to the active mode's handler.
pub open spec fn search_step(m: SearchModel, key: Key, line: Seq<char>) -> SearchModel {
    if key is Tab {
        let next = if m.state is SearchBar {
            PlayListSearchComponentState::SearchResult
        } else {
            PlayListSearchComponentState::SearchBar
        };
        SearchModel { state: next, ..m }
    } else if m.state is SearchBar {
        search_bar_step(m, key, line)
    } else {
        search_result_step(m, key)
    }
}

/// The action any key asks of the binary.
pub open spec fn search_action(m: SearchModel, key: Key, line: Seq<char>) -> SearchActionV {
    if key is Tab {
        SearchActionV::Nothing
    } else if m.state is SearchBar {
        search_bar_action(m, key, line)
    } else {
        search_result_action(m, key)
    }
}

/// The mathematical value of a query outcome as the background task hands
/// it over.
pub open spec fn response_view(
    r: Result<Vec<SearchEntry>, String>,
) -> Result<Seq<SearchEntryV>, Seq<char>> {
    match r {
        Ok(v) => Ok(v.deep_view()),
        Err(e) => Err(e@),
    }
}

/// The state after a query outcome arrives: the result slot is replaced
/// wholesale, content becomes displayable even on failure, and the cursor is
/// clamped into the new list.
pub open spec fn accept_result_step(
    m: SearchModel,
    response: Result<Seq<SearchEntryV>, Seq<char>>,
) -> SearchModel {
    match response {
        Ok(v) => SearchModel {
            results: SearchResultsV::Loaded(v),
            display_content: true,
            selected: clamp_cursor(m.selected, v.len() as int),
            ..m
        },
        Err(e) => SearchModel {
            results: SearchResultsV::Failed(e),
            display_content: true,
            selected: 0,
            ..m
        },
    }
}

impl PlayListSearchComponent {
    /// A fresh sub-view: editing an empty query, nothing fetched, cursor at
    /// the top.
    pub fn new() -> (s: PlayListSearchComponent)
        ensures
            s@ == (SearchModel {
                state: PlayListSearchComponentState::SearchBar,
                query: Seq::<char>::empty(),
                display_content: false,
                selected: 0,
                results: SearchResultsV::Absent,
            }),
            s@.wf(),
    {
        PlayListSearchComponent {
            state: PlayListSearchComponentState::SearchBar,
            query: String::new(),
            display_content: false,
            selected: 0,
            results: SearchResults::Absent,
        }
    }

    /// Toggles between editing the query and navigating the results.
    pub fn change_state(&mut self)
        ensures
            final(self).state == (if old(self).state is SearchBar {
                PlayListSearchComponentState::SearchResult
            } else {
                PlayListSearchComponentState::SearchBar
            }),
            final(self)@ == (SearchModel { state: final(self).state, ..old(self)@ }),
    {
        if self.state == PlayListSearchComponentState::SearchBar {
            self.state = PlayListSearchComponentState::SearchResult;
        } else {
            self.state = PlayListSearchComponentState::SearchBar;
        }
    }

    /// Handles a key while the query line is being edited. On submit the
    /// cursor is 0 and displayed content is cleared whatever the prior
    /// state was; the trimmed line becomes the query and is dispatched as a
    /// background search unless it is empty.
    pub fn handle_keystrokes_search_bar(&mut self, key: Key, line: &str) -> (r: SearchAction)
        requires
            old(self)@.wf(),
        ensures
            final(self)@ == search_bar_step(old(self)@, key, line@),
            r@ == search_bar_action(old(self)@, key, line@),
            final(self)@.wf(),
            key is Enter ==> final(self).selected == 0 && !final(self).display_content,
    {
        match key {
            Key::Enter => {
                self.display_content = false;
                self.selected = 0;
                let q = trim(line);
                if !q.as_str().is_empty() {
                    self.query = q.clone();
                    SearchAction::SpawnQuery(q)
                } else {
                    SearchAction::Nothing
                }
            },
            _ => SearchAction::EditInput,
        }
    }

    /// Handles a key while the result list is being navigated: down and up
    /// saturate at the list's ends, confirm yields the highlighted entry's
    /// id for the selection relay.
    pub fn handle_keystrokes_search_result(&mut self, key: Key) -> (r: SearchAction)
        requires
            old(self)@.wf(),
        ensures
            final(self)@ == search_result_step(old(self)@, key),
            r@ == search_result_action(old(self)@, key),
            final(self)@.wf(),
    {
        match key {
            Key::Enter => {
                match &self.results {
                    SearchResults::Loaded(v) => {
                        if self.selected < v.len() {
                            SearchAction::SendId(v[self.selected].id.clone())
                        } else {
                            SearchAction::Nothing
                        }
                    },
                    _ => SearchAction::Nothing,
                }
            },
            Key::Down | Key::Char('j') => {
                let len = match &self.results {
                    SearchResults::Loaded(v) => v.len(),
                    _ => 0,
                };
                self.selected = cursor_down(self.selected, len);
                SearchAction::Nothing
            },
            Key::Up | Key::Char('k') => {
                self.selected = cursor_up(self.selected);
                SearchAction::Nothing
            },
            _ => SearchAction::Nothing,
        }
    }

    /// Handles any key: tab toggles the mode, everything else goes to the
    /// active mode's handler.
    pub fn handle_keystrokes(&mut self, key: Key, line: &str) -> (r: SearchAction)
        requires
            old(self)@.wf(),
        ensures
            final(self)@ == search_step(old(self)@, key, line@),
            r@ == search_action(old(self)@, key, line@),
            final(self)@.wf(),
    {
        match key {
            Key::Tab => {
                self.change_state();
                SearchAction::Nothing
            },
            _ => {
                if self.state == PlayListSearchComponentState::SearchBar {
                    self.handle_keystrokes_search_bar(key, line)
                } else {
                    self.handle_keystrokes_search_result(key)
                }
            },
        }
    }

    /// Consumes one drained message from the result channel: the result
    /// slot is replaced wholesale, the content becomes displayable even on
    /// failure, and the cursor is clamped into the new list.
    pub fn accept_result(&mut self, response: Result<Vec<SearchEntry>, String>)
        requires
            old(self)@.wf(),
        ensures
            final(self)@ == accept_result_step(old(self)@, response_view(response)),
            final(self)@.wf(),
            final(self).display_content,
    {
        match response {
            Ok(v) => {
                let len = v.len();
                if len == 0 {
                    self.selected = 0;
                } else if self.selected >= len {
                    self.selected = len - 1;
                }
                self.results = SearchResults::Loaded(v);
            },
            Err(e) => {
                self.selected = 0;
                self.results = SearchResults::Failed(e);
            },
        }
        self.display_content = true;
    }

    /// The entries to draw: present only once content is displayable and a
    /// list was actually loaded.
    pub fn visible_entries(&self) -> (r: Option<&Vec<SearchEntry>>)
        ensures
            match r {
                Some(v) => self.display_content && self@.results == SearchResultsV::Loaded(
                    v.deep_view(),
                ),
                None => !self.display_content || !(self@.results is Loaded),
            },
    {
        if self.display_content {
            match &self.results {
                SearchResults::Loaded(v) => Some(v),
                _ => None,
            }
        } else {
            None
        }
    }

    /// The provider's failure message to draw, if the last query failed and
    /// content is displayable.
    pub fn error_message(&self) -> (r: Option<&String>)
        ensures
            match r {
                Some(e) => self.display_content && self@.results == SearchResultsV::Failed(e@),
                None => !self.display_content || !(self@.results is Failed),
            },
    {
        if self.display_content {
            match &self.results {
                SearchResults::Failed(e) => Some(e),
                _ => None,
            }
        } else {
            None
        }
    }
}

} // verus!
