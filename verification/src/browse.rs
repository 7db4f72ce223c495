//! Browse sub-view: the paginated cache of the selected collection.
//!
//! When a collection id arrives over the selection relay, the binary calls
//! `begin_load`, which invalidates the cache at request time and hands back
//! a fresh generation token; the background fetch is tagged with that token
//! and its outcome is delivered to `accept_load`, which discards it when a
//! newer selection has superseded it. Page navigation slices the already
//! loaded item list; it never fetches. All offsets stay multiples of the
//! page size and inside `[0, page_count - page_size]`, and the in-page
//! cursor saturates against the actual length of the visible page.

use vstd::prelude::*;
use vstd::arithmetic::div_mod::{
    lemma_fundamental_div_mod, lemma_mod_add_multiples_vanish, lemma_mod_division_less_than_divisor,
    lemma_mod_is_zero, lemma_mod_multiples_basic, lemma_mod_sub_multiples_vanish, lemma_small_mod,
};
use vstd::math::{max, min};
use crate::cursor::{cursor_down, cursor_down_spec, cursor_in_bounds, cursor_up, cursor_up_spec};
use crate::keys::Key;

verus! {

/// One playable item of a collection: title, opaque id, and author list.
pub struct Song {
    pub title: String,
    pub id: String,
    pub artist_name: Vec<String>,
}

/// The mathematical value of a `Song`.
pub struct SongV {
    pub title: Seq<char>,
    pub id: Seq<char>,
    pub artist_name: Seq<Seq<char>>,
}

impl View for Song {
    type V = SongV;

    open spec fn view(&self) -> SongV {
        SongV { title: self.title@, id: self.id@, artist_name: self.artist_name.deep_view() }
    }
}

impl DeepView for Song {
    type V = SongV;

    open spec fn deep_view(&self) -> SongV {
        self.view()
    }
}

impl Clone for Song {
    /// A clone carries the same title, id and authors.
    fn clone(&self) -> (res: Song)
        ensures
            res@ == self@,
    {
        let res = Song {
            title: self.title.clone(),
            id: self.id.clone(),
            artist_name: self.artist_name.clone(),
        };
        proof {
            assert(res.artist_name.deep_view() =~= self.artist_name.deep_view());
        }
        res
    }
}

/// The item count of a collection rounded up to the next multiple of the
/// page size: the bound the page offset navigates under.
pub open spec fn page_count(len: int, ps: int) -> int {
    ((len + ps - 1) / ps) * ps
}

/// What `page_count` guarantees: a multiple of the page size, at least the
/// item count and less than one page more, zero exactly for an empty
/// collection.
pub proof fn lemma_page_count_props(len: int, ps: int)
    requires
        len >= 0,
        ps > 0,
    ensures
        page_count(len, ps) % ps == 0,
        len <= page_count(len, ps) < len + ps,
        len == 0 ==> page_count(len, ps) == 0,
        len > 0 ==> page_count(len, ps) >= ps,
{
    let q = (len + ps - 1) / ps;
    lemma_fundamental_div_mod(len + ps - 1, ps);
    lemma_mod_division_less_than_divisor(len + ps - 1, ps);
    lemma_mod_multiples_basic(q, ps);
    if page_count(len, ps) > 0 {
        lemma_mod_is_zero(page_count(len, ps) as nat, ps as nat);
    }
}

/// The slice of the full item list that one page shows: `ps` items from
/// `offset`, or fewer on the last page.
pub open spec fn page_at(f: Seq<SongV>, offset: int, ps: int) -> Seq<SongV> {
    f.subrange(offset, min(offset + ps, f.len() as int))
}

/// Where a forward page move lands: one page further, clamped to the last
/// page; nowhere when the collection is empty.
pub open spec fn forward_offset(offset: int, ps: int, pc: int) -> int {
    if pc == 0 {
        offset
    } else {
        min(offset + ps, pc - ps)
    }
}

/// Where a backward page move lands: one page back, clamped to the start.
pub open spec fn backward_offset(offset: int, ps: int) -> int {
    max(offset - ps, 0)
}

/// The mathematical state of the browse sub-view.
pub struct BrowseModel {
    /// The full item list of the loaded collection, if a load completed.
    pub full: Option<Seq<SongV>>,
    /// The visible page, sliced out of `full`.
    pub content: Option<Seq<SongV>>,
    /// `page_count` of the loaded list; absent until a load completes.
    pub max_page: Option<int>,
    /// First item index of the visible page.
    pub offset: int,
    /// In-page selection cursor.
    pub selected: int,
    /// Items per page; fixed at construction.
    pub page_size: int,
    /// Identity token of the most recent load request.
    pub generation: int,
}

/// The length of the visible page (0 when nothing is loaded).
pub open spec fn visible_len(m: BrowseModel) -> int {
    match m.content {
        Some(c) => c.len() as int,
        None => 0,
    }
}

impl BrowseModel {
    /// Validity: before a load the cache is empty and the offset pinned to
    /// 0; after a load the page bound fits the list, the offset is a page
    /// multiple inside `[0, page_count - page_size]`, and the visible page
    /// is the slice of the list the offset names. The cursor always sits
    /// inside the visible page.
    pub open spec fn wf(self) -> bool {
        &&& self.page_size > 0
        &&& match self.full {
            Some(f) => {
                let pc = page_count(f.len() as int, self.page_size);
                &&& self.max_page == Some(pc)
                &&& self.offset % self.page_size == 0
                &&& if pc == 0 {
                    self.offset == 0
                } else {
                    0 <= self.offset <= pc - self.page_size
                }
                &&& self.offset <= f.len()
                &&& self.content == Some(page_at(f, self.offset, self.page_size))
            },
            None => {
                &&& self.content is None
                &&& self.max_page is None
                &&& self.offset == 0
            },
        }
        &&& cursor_in_bounds(self.selected, visible_len(self))
    }
}

/// The state right after a new collection id is selected: the cache and the
/// displayed content are invalidated immediately — not only when the fetch
/// completes — cursor and offset return to 0, and a fresh generation token
/// marks every older in-flight load as superseded.
pub open spec fn begin_load_step(m: BrowseModel) -> BrowseModel {
    BrowseModel {
        full: None,
        content: None,
        max_page: None,
        offset: 0,
        selected: 0,
        generation: m.generation + 1,
        ..m
    }
}

/// The state once a load for the current generation succeeds: the list is
/// published wholesale, the page bound computed, and page 0 materialized.
pub open spec fn loaded_model(m: BrowseModel, items: Seq<SongV>) -> BrowseModel {
    BrowseModel {
        full: Some(items),
        content: Some(page_at(items, 0, m.page_size)),
        max_page: Some(page_count(items.len() as int, m.page_size)),
        offset: 0,
        selected: 0,
        ..m
    }
}

/// The state after a load outcome arrives. A stale token — one that is not
/// the most recently issued — changes nothing, whichever items it carries;
/// so does a failed load, which leaves the cache empty rather than crash.
pub open spec fn accept_load_step(
    m: BrowseModel,
    generation: int,
    outcome: Result<Seq<SongV>, Seq<char>>,
) -> BrowseModel {
    if generation != m.generation {
        m
    } else {
        match outcome {
            Ok(items) => loaded_model(m, items),
            Err(_) => m,
        }
    }
}

/// The state after a forward page move: no-op without a loaded collection,
/// at the last page, or on an empty collection; otherwise the offset
/// advances one page, the page is sliced out of the loaded list, and the
/// cursor returns to the top.
pub open spec fn page_forward_step(m: BrowseModel) -> BrowseModel {
    match (m.full, m.max_page) {
        (Some(f), Some(pc)) => {
            let no = forward_offset(m.offset, m.page_size, pc);
            if no == m.offset {
                m
            } else {
                BrowseModel {
                    offset: no,
                    content: Some(page_at(f, no, m.page_size)),
                    selected: 0,
                    ..m
                }
            }
        },
        _ => m,
    }
}

/// The state after a backward page move: the mirror image of
/// `page_forward_step`, clamped at offset 0.
pub open spec fn page_backward_step(m: BrowseModel) -> BrowseModel {
    match (m.full, m.max_page) {
        (Some(f), Some(_)) => {
            let no = backward_offset(m.offset, m.page_size);
            if no == m.offset {
                m
            } else {
                BrowseModel {
                    offset: no,
                    content: Some(page_at(f, no, m.page_size)),
                    selected: 0,
                    ..m
                }
            }
        },
        _ => m,
    }
}

/// The state after any key: left and right turn pages, down and up move the
/// in-page cursor with saturation against the actual page length.
pub open spec fn browse_step(m: BrowseModel, key: Key) -> BrowseModel {
    if key is Right {
        page_forward_step(m)
    } else if key is Left {
        page_backward_step(m)
    } else if key is Down || key == Key::Char('j') {
        BrowseModel { selected: cursor_down_spec(m.selected, visible_len(m)), ..m }
    } else if key is Up || key == Key::Char('k') {
        BrowseModel { selected: cursor_up_spec(m.selected), ..m }
    } else {
        m
    }
}

/// Round-trip law: from any interior page, a forward move followed by a
/// backward move returns to the original offset; at the last page a forward
/// move stays put, and at offset 0 a backward move stays put.
pub proof fn lemma_page_round_trip(offset: int, ps: int, pc: int)
    requires
        ps > 0,
        pc % ps == 0,
        offset % ps == 0,
        0 <= offset,
    ensures
        0 < offset < pc - ps ==> backward_offset(forward_offset(offset, ps, pc), ps) == offset,
        pc > 0 && offset == pc - ps ==> forward_offset(offset, ps, pc) == offset,
        backward_offset(0, ps) == 0,
{
    if 0 < offset < pc - ps {
        let d = pc - ps - offset;
        lemma_mod_sub_multiples_vanish(pc - offset, ps);
        lemma_mod_sub_multiples_vanish(pc, ps);
        assert((pc - offset) % ps == 0) by {
            lemma_mod_removes_multiple(pc, offset, ps);
        };
        lemma_mod_is_zero(d as nat, ps as nat);
    }
}

/// The visible page never holds more than one page of items, so by
/// well-formedness the in-page cursor also stays below the page size.
pub proof fn lemma_visible_page_bounded(m: BrowseModel)
    requires
        m.wf(),
    ensures
        visible_len(m) <= m.page_size,
        cursor_in_bounds(m.selected, visible_len(m)),
{
}

/// Round-trip law over whole states: from an interior page, a forward move
/// followed by a backward move restores the state — same collection, same
/// offset, and by well-formedness the same visible page — with the cursor
/// back at the top of the page.
pub proof fn lemma_page_navigation_round_trip(m: BrowseModel)
    requires
        m.wf(),
        m.full matches Some(f) && 0 < m.offset < page_count(
            f.len() as int,
            m.page_size,
        ) - m.page_size,
    ensures
        page_backward_step(page_forward_step(m)) == (BrowseModel { selected: 0, ..m }),
{
    let f = m.full->Some_0;
    let ps = m.page_size;
    let pc = page_count(f.len() as int, ps);
    lemma_page_count_props(f.len() as int, ps);
    lemma_page_round_trip(m.offset, ps, pc);
    let d = pc - ps - m.offset;
    lemma_mod_sub_multiples_vanish(pc, ps);
    lemma_mod_removes_multiple(pc - ps, m.offset, ps);
    lemma_mod_is_zero(d as nat, ps as nat);
    assert(forward_offset(m.offset, ps, pc) == m.offset + ps);
    let fwd = page_forward_step(m);
    assert(fwd.offset == m.offset + ps);
    assert(backward_offset(fwd.offset, ps) == m.offset);
    assert(page_backward_step(fwd).content == Some(page_at(f, m.offset, ps)));
}

/// Boundary law: a backward move at offset 0 and a forward move at the last
/// page are no-ops, as is any move before a load completed.
pub proof fn lemma_page_navigation_boundaries(m: BrowseModel)
    requires
        m.wf(),
    ensures
        m.offset == 0 ==> page_backward_step(m) == m,
        (m.full matches Some(f) && m.offset == page_count(f.len() as int, m.page_size)
            - m.page_size) ==> page_forward_step(m) == m,
        m.full is None ==> page_forward_step(m) == m && page_backward_step(m) == m,
{
}

/// Helper: the difference of two multiples of `ps` is a multiple of `ps`.
proof fn lemma_mod_removes_multiple(a: int, b: int, ps: int)
    requires
        ps > 0,
        a % ps == 0,
        b % ps == 0,
    ensures
        (a - b) % ps == 0,
{
    lemma_fundamental_div_mod(a, ps);
    lemma_fundamental_div_mod(b, ps);
    let qa = a / ps;
    let qb = b / ps;
    assert(a - b == (qa - qb) * ps) by (nonlinear_arith)
        requires
            a == ps * qa,
            b == ps * qb,
    ;
    lemma_mod_multiples_basic(qa - qb, ps);
}

/// Identity-correct supersession: when collection A is selected, then B,
/// and B's fetch lands first, A's later arrival is recognized as stale by
/// its generation token and discarded — the cache keeps B's items.
pub proof fn lemma_identity_correct_supersession(
    m: BrowseModel,
    items_a: Seq<SongV>,
    items_b: Seq<SongV>,
)
    ensures
        ({
            let after_a_selected = begin_load_step(m);
            let after_b_selected = begin_load_step(after_a_selected);
            let after_b_landed = accept_load_step(
                after_b_selected,
                after_b_selected.generation,
                Ok(items_b),
            );
            let after_a_landed = accept_load_step(
                after_b_landed,
                after_a_selected.generation,
                Ok(items_a),
            );
            after_a_landed == after_b_landed && after_a_landed.full == Some(items_b)
        }),
{
}

/// The browse sub-view of a selected collection.
pub struct SeletectPlayListView {
    pub full: Option<Vec<Song>>,
    pub content: Option<Vec<Song>>,
    pub max_page: Option<usize>,
    pub offset: usize,
    pub selected: usize,
    pub page_size: usize,
    pub generation: u64,
}

impl View for SeletectPlayListView {
    type V = BrowseModel;

    open spec fn view(&self) -> BrowseModel {
        BrowseModel {
            full: match self.full {
                Some(f) => Some(f.deep_view()),
                None => None,
            },
            content: match self.content {
                Some(c) => Some(c.deep_view()),
                None => None,
            },
            max_page: match self.max_page {
                Some(p) => Some(p as int),
                None => None,
            },
            offset: self.offset as int,
            selected: self.selected as int,
            page_size: self.page_size as int,
            generation: self.generation as int,
        }
    }
}

/// The mathematical value of a load outcome as the background task hands
/// it over.
pub open spec fn outcome_view(r: Result<Vec<Song>, String>) -> Result<Seq<SongV>, Seq<char>> {
    match r {
        Ok(v) => Ok(v.deep_view()),
        Err(e) => Err(e@),
    }
}

/// Copies the page starting at `from` out of the full item list: `ps`
/// items, or as many as remain.
fn page_slice(f: &Vec<Song>, from: usize, ps: usize) -> (r: Vec<Song>)
    requires
        from <= f.len(),
        from + ps <= usize::MAX,
    ensures
        r.deep_view() == page_at(f.deep_view(), from as int, ps as int),
{
    let end = if from + ps < f.len() {
        from + ps
    } else {
        f.len()
    };
    let mut r: Vec<Song> = Vec::new();
    let mut i = from;
    while i < end
        invariant
            from <= i <= end <= f.len(),
            end == min(from + ps, f.len() as int),
            r.deep_view() =~= f.deep_view().subrange(from as int, i as int),
        decreases end - i,
    {
        let ghost prev = r.deep_view();
        r.push(f[i].clone());
        proof {
            assert(r@.len() == prev.len() + 1);
            assert forall|k: int| 0 <= k < r@.len() implies r.deep_view()[k] == f.deep_view().subrange(
                from as int,
                i + 1,
            )[k] by {
                assert(r.deep_view()[k] == r@[k].deep_view());
                if k < prev.len() {
                    assert(r@[k] == r@.subrange(0, prev.len() as int)[k]);
                    assert(prev[k] == f.deep_view().subrange(from as int, i as int)[k]);
                } else {
                    assert(r@[k]@ == f@[i as int]@);
                }
            }
            assert(r.deep_view() =~= f.deep_view().subrange(from as int, i + 1));
        }
        i = i + 1;
    }
    proof {
        assert(r.deep_view() =~= page_at(f.deep_view(), from as int, ps as int));
    }
    r
}

/// Computes the item count rounded up to the next page multiple.
fn compute_page_count(len: usize, ps: usize) -> (pc: usize)
    requires
        ps > 0,
        len + ps <= usize::MAX,
    ensures
        pc == page_count(len as int, ps as int),
{
    proof {
        lemma_page_count_props(len as int, ps as int);
    }
    ((len + ps - 1) / ps) * ps
}

impl SeletectPlayListView {
    /// A fresh browse view with nothing loaded and the given page size.
    pub fn new(page_size: usize) -> (v: SeletectPlayListView)
        requires
            page_size > 0,
        ensures
            v@ == (BrowseModel {
                full: None,
                content: None,
                max_page: None,
                offset: 0,
                selected: 0,
                page_size: page_size as int,
                generation: 0,
            }),
            v@.wf(),
    {
        SeletectPlayListView {
            full: None,
            content: None,
            max_page: None,
            offset: 0,
            selected: 0,
            page_size,
            generation: 0,
        }
    }

    /// Registers a newly selected collection id: invalidates the cache and
    /// the visible content at request time, resets cursor and offset, and
    /// returns the fresh generation token the background fetch must carry.
    pub fn begin_load(&mut self) -> (g: u64)
        requires
            old(self)@.wf(),
            old(self).generation < u64::MAX,
        ensures
            final(self)@ == begin_load_step(old(self)@),
            final(self)@.wf(),
            g == final(self).generation,
    {
        self.full = None;
        self.content = None;
        self.max_page = None;
        self.offset = 0;
        self.selected = 0;
        self.generation = self.generation + 1;
        self.generation
    }

    /// Consumes the outcome of a background load tagged with `generation`.
    /// A stale generation or a failure changes nothing; the current
    /// generation's success publishes the list and materializes page 0.
    pub fn accept_load(&mut self, generation: u64, outcome: Result<Vec<Song>, String>)
        requires
            old(self)@.wf(),
            outcome matches Ok(items) ==> items.len() + old(self).page_size <= usize::MAX,
        ensures
            final(self)@ == accept_load_step(old(self)@, generation as int, outcome_view(outcome)),
            final(self)@.wf(),
    {
        if generation != self.generation {
            return;
        }
        match outcome {
            Ok(items) => {
                proof {
                    lemma_page_count_props(items.len() as int, self.page_size as int);
                    lemma_small_mod(0nat, self.page_size as nat);
                }
                let pc = compute_page_count(items.len(), self.page_size);
                let page0 = page_slice(&items, 0, self.page_size);
                self.max_page = Some(pc);
                self.offset = 0;
                self.selected = 0;
                self.content = Some(page0);
                self.full = Some(items);
            },
            Err(_) => {},
        }
    }

    /// Moves one page forward: slices the next page out of the loaded list
    /// and resets the cursor; a no-op at the last page, on an empty
    /// collection, or before any load completed.
    pub fn page_forward(&mut self)
        requires
            old(self)@.wf(),
        ensures
            final(self)@ == page_forward_step(old(self)@),
            final(self)@.wf(),
    {
        let mp = match self.max_page {
            Some(mp) => mp,
            None => {
                return;
            },
        };
        if mp == 0 {
            return;
        }
        let no = if self.offset + self.page_size < mp - self.page_size {
            self.offset + self.page_size
        } else {
            mp - self.page_size
        };
        if no == self.offset {
            return;
        }
        proof {
            let m = old(self)@;
            let f = m.full->Some_0;
            lemma_page_count_props(f.len() as int, m.page_size);
            lemma_mod_add_multiples_vanish(m.offset, m.page_size);
            lemma_mod_sub_multiples_vanish(m.max_page->Some_0, m.page_size);
        }
        let f = match &self.full {
            Some(f) => f,
            None => {
                return;
            },
        };
        let page = page_slice(f, no, self.page_size);
        self.offset = no;
        self.content = Some(page);
        self.selected = 0;
    }

    /// Moves one page backward: the mirror image of `page_forward`, a no-op
    /// at offset 0 or before any load completed.
    pub fn page_backward(&mut self)
        requires
            old(self)@.wf(),
        ensures
            final(self)@ == page_backward_step(old(self)@),
            final(self)@.wf(),
    {
        if self.max_page.is_none() {
            return;
        }
        let no = if self.offset >= self.page_size {
            self.offset - self.page_size
        } else {
            0
        };
        if no == self.offset {
            return;
        }
        proof {
            let m = old(self)@;
            let f = m.full->Some_0;
            lemma_page_count_props(f.len() as int, m.page_size);
            lemma_mod_sub_multiples_vanish(m.offset, m.page_size);
            lemma_small_mod(0nat, m.page_size as nat);
        }
        let f = match &self.full {
            Some(f) => f,
            None => {
                return;
            },
        };
        let page = page_slice(f, no, self.page_size);
        self.offset = no;
        self.content = Some(page);
        self.selected = 0;
    }

    /// Handles a key: left and right turn pages, down and up move the
    /// in-page cursor, saturating against the actual length of the visible
    /// page (not the nominal page size).
    pub fn handle_keystrokes(&mut self, key: Key)
        requires
            old(self)@.wf(),
        ensures
            final(self)@ == browse_step(old(self)@, key),
            final(self)@.wf(),
    {
        match key {
            Key::Right => self.page_forward(),
            Key::Left => self.page_backward(),
            Key::Down | Key::Char('j') => {
                let len = match &self.content {
                    Some(c) => c.len(),
                    None => 0,
                };
                self.selected = cursor_down(self.selected, len);
            },
            Key::Up | Key::Char('k') => {
                self.selected = cursor_up(self.selected);
            },
            _ => {},
        }
    }

    /// The items of the visible page, once a load completed.
    pub fn visible_songs(&self) -> (r: Option<&Vec<Song>>)
        ensures
            match r {
                Some(c) => self@.content == Some(c.deep_view()),
                None => self@.content is None,
            },
    {
        match &self.content {
            Some(c) => Some(c),
            None => None,
        }
    }
}

} // verus!
