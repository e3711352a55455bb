//! Browser-style navigation history: an ordered list of visited
//! directories with a cursor, a remembered scroll position per entry,
//! branch truncation on new navigation, suppression of consecutive
//! duplicates, and eviction of the oldest entry once the list is full.
//!
//! The scroll position of an entry is an opaque 32-bit value chosen by
//! the caller (typically the bit pattern of a toolkit scroll offset);
//! this component stores and returns it but never interprets it.

use vstd::prelude::*;

verus! {

/// One recorded directory visit.
#[derive(Clone)]
pub struct ViewHistory {
    pub path: String,
    pub scroll: u32,
}

/// The mathematical image of one visit.
pub struct VisitView {
    pub path: Seq<char>,
    pub scroll: u32,
}

impl View for ViewHistory {
    type V = VisitView;

    open spec fn view(&self) -> VisitView {
        VisitView { path: self.path@, scroll: self.scroll }
    }
}

impl ViewHistory {
    pub fn new(path: String, scroll: u32) -> (r: ViewHistory)
        ensures
            r@ == (VisitView { path: path@, scroll }),
    {
        ViewHistory { path, scroll }
    }
}

/// The mathematical image of a whole history.
pub struct NavView {
    pub current: Seq<char>,
    pub input: Seq<char>,
    pub entries: Seq<VisitView>,
    pub cursor: int,
    pub limit: int,
}

/// The visit list of an entry vector.
pub open spec fn entries_of(h: Seq<ViewHistory>) -> Seq<VisitView> {
    h.map_values(|e: ViewHistory| e@)
}

/// Browser-style back/forward history over directory paths.
#[derive(Clone)]
pub struct NavigationState {
    pub current_path: String,
    pub path_input: String,
    pub history: Vec<ViewHistory>,
    pub history_index: usize,
    pub max_history: usize,
}

impl View for NavigationState {
    type V = NavView;

    open spec fn view(&self) -> NavView {
        NavView {
            current: self.current_path@,
            input: self.path_input@,
            entries: entries_of(self.history@),
            cursor: self.history_index as int,
            limit: self.max_history as int,
        }
    }
}

/// Well-formedness: the history is never empty, never longer than its
/// bound, the cursor is inside it, consecutive entries never repeat a
/// path, and the current path (echoed by the input field) is the
/// entry under the cursor.
pub open spec fn nav_wf(s: NavView) -> bool {
    &&& 1 <= s.entries.len() <= s.limit
    &&& 0 <= s.cursor < s.entries.len()
    &&& 2 <= s.limit
    &&& forall|i: int|
        0 <= i < s.entries.len() - 1 ==> s.entries[i].path != #[trigger] s.entries[i + 1].path
    &&& s.current == s.entries[s.cursor].path
    &&& s.input == s.current
}

/// The scroll position remembered for the most recent visit of `p`,
/// searching from the tail; `0` when `p` was never visited.
pub open spec fn remembered_scroll(entries: Seq<VisitView>, p: Seq<char>) -> u32
    decreases entries.len(),
{
    if entries.len() == 0 {
        0
    } else if entries.last().path == p {
        entries.last().scroll
    } else {
        remembered_scroll(entries.drop_last(), p)
    }
}

/// A fresh history: the initial directory is the sole entry, with
/// scroll `0`, and the bound is fifty entries.
pub open spec fn nav_init(p: Seq<char>) -> NavView {
    NavView {
        current: p,
        input: p,
        entries: seq![VisitView { path: p, scroll: 0 }],
        cursor: 0,
        limit: 50,
    }
}

/// Navigation: a no-op when `p` is already current; otherwise the
/// forward branch is discarded, a new entry for `p` is appended with
/// its remembered scroll, the oldest entry is evicted if the bound
/// would be exceeded, and the cursor moves to the tail.
pub open spec fn nav_navigate(s: NavView, p: Seq<char>) -> NavView {
    if p == s.current {
        s
    } else {
        let appended = s.entries.take(s.cursor + 1).push(
            VisitView { path: p, scroll: remembered_scroll(s.entries, p) },
        );
        let entries = if appended.len() > s.limit {
            appended.drop_first()
        } else {
            appended
        };
        NavView { current: p, input: p, entries, cursor: entries.len() - 1, limit: s.limit }
    }
}

/// Overwriting the scroll position of the entry under the cursor.
pub open spec fn nav_set_scroll(s: NavView, scroll: u32) -> NavView {
    NavView {
        entries: s.entries.update(s.cursor, VisitView { path: s.entries[s.cursor].path, scroll }),
        ..s
    }
}

pub open spec fn nav_can_go_back(s: NavView) -> bool {
    s.cursor > 0
}

pub open spec fn nav_can_go_forward(s: NavView) -> bool {
    s.cursor + 1 < s.entries.len()
}

/// Stepping back: the cursor moves one entry towards the front and the
/// current path follows it; a no-op at the boundary.
pub open spec fn nav_back(s: NavView) -> NavView {
    if nav_can_go_back(s) {
        NavView {
            current: s.entries[s.cursor - 1].path,
            input: s.entries[s.cursor - 1].path,
            cursor: s.cursor - 1,
            ..s
        }
    } else {
        s
    }
}

/// Stepping forward: symmetric to `nav_back`.
pub open spec fn nav_forward(s: NavView) -> NavView {
    if nav_can_go_forward(s) {
        NavView {
            current: s.entries[s.cursor + 1].path,
            input: s.entries[s.cursor + 1].path,
            cursor: s.cursor + 1,
            ..s
        }
    } else {
        s
    }
}

/// The visited paths in order, with consecutive duplicates collapsed.
pub open spec fn dedup_paths(entries: Seq<VisitView>) -> Seq<Seq<char>>
    decreases entries.len(),
{
    if entries.len() == 0 {
        Seq::empty()
    } else if entries.len() == 1 {
        seq![entries[0].path]
    } else if entries.last().path == entries[entries.len() - 2].path {
        dedup_paths(entries.drop_last())
    } else {
        dedup_paths(entries.drop_last()).push(entries.last().path)
    }
}

/// Navigation preserves well-formedness, never grows the history past
/// its bound, and leaves the cursor on the entry for the new path.
pub proof fn lemma_navigate_preserves_wf(s: NavView, p: Seq<char>)
    requires
        nav_wf(s),
    ensures
        nav_wf(nav_navigate(s, p)),
        nav_navigate(s, p).entries.len() <= s.limit,
        p != s.current ==> nav_navigate(s, p).cursor == nav_navigate(s, p).entries.len() - 1,
        p != s.current ==> nav_navigate(s, p).entries[nav_navigate(s, p).cursor].path == p,
{
    if p != s.current {
        let appended = s.entries.take(s.cursor + 1).push(
            VisitView { path: p, scroll: remembered_scroll(s.entries, p) },
        );
        assert(appended.len() == s.cursor + 2);
        assert(forall|i: int|
            0 <= i < appended.len() - 1 ==> appended[i].path != #[trigger] appended[i + 1].path);
        if appended.len() > s.limit {
            let entries = appended.drop_first();
            assert(forall|i: int|
                0 <= i < entries.len() - 1 ==> entries[i].path != #[trigger] entries[i + 1].path);
        }
    }
}

impl NavigationState {
    /// A fresh history seeded with the initial working directory.
    pub fn new(initial_path: String) -> (r: NavigationState)
        ensures
            r@ == nav_init(initial_path@),
            nav_wf(r@),
            !nav_can_go_back(r@),
            !nav_can_go_forward(r@),
    {
        let mut history: Vec<ViewHistory> = Vec::new();
        history.push(ViewHistory { path: initial_path.clone(), scroll: 0 });
        let r = NavigationState {
            current_path: initial_path.clone(),
            path_input: initial_path,
            history,
            history_index: 0,
            max_history: 50,
        };
        proof {
            assert(r@.entries =~= nav_init(initial_path@).entries);
        }
        r
    }

    fn get_remembered_scroll(&self, path: &String) -> (r: u32)
        ensures
            r == remembered_scroll(self@.entries, path@),
    {
        let ghost entries = self@.entries;
        let mut i: usize = self.history.len();
        proof {
            assert(entries.take(i as int) =~= entries);
        }
        while i > 0
            invariant
                i <= self.history@.len(),
                entries == entries_of(self.history@),
                remembered_scroll(entries, path@) == remembered_scroll(
                    entries.take(i as int),
                    path@,
                ),
            decreases i,
        {
            let e = &self.history[i - 1];
            if e.path.eq(path) {
                proof {
                    assert(entries.take(i as int).last() == entries[i - 1]);
                }
                return e.scroll;
            }
            proof {
                assert(entries.take(i as int).drop_last() =~= entries.take(i - 1));
            }
            i = i - 1;
        }
        0
    }

    /// Visit `path`: a no-op when it is already the current directory,
    /// otherwise record it at the tail as `nav_navigate` describes.
    pub fn navigate_to(&mut self, path: String)
        requires
            nav_wf(old(self)@),
        ensures
            final(self)@ == nav_navigate(old(self)@, path@),
            nav_wf(final(self)@),
    {
        proof {
            lemma_navigate_preserves_wf(old(self)@, path@);
        }
        if self.current_path.eq(&path) {
            return ;
        }
        let remembered = self.get_remembered_scroll(&path);
        self.history.truncate(self.history_index + 1);
        self.history.push(ViewHistory { path: path.clone(), scroll: remembered });
        proof {
            assert(entries_of(self.history@) =~= old(self)@.entries.take(
                old(self)@.cursor + 1,
            ).push(VisitView { path: path@, scroll: remembered }));
        }
        if self.history.len() > self.max_history {
            self.history.remove(0);
            proof {
                assert(entries_of(self.history@) =~= old(self)@.entries.take(
                    old(self)@.cursor + 1,
                ).push(VisitView { path: path@, scroll: remembered }).drop_first());
            }
        }
        self.history_index = self.history.len() - 1;
        self.current_path = path.clone();
        self.path_input = path;
    }

    /// Overwrite the scroll position remembered for the entry that is
    /// currently shown.
    pub fn update_current_scroll(&mut self, scroll: u32)
        requires
            nav_wf(old(self)@),
        ensures
            final(self)@ == nav_set_scroll(old(self)@, scroll),
            nav_wf(final(self)@),
    {
        self.history[self.history_index].scroll = scroll;
        proof {
            assert(self@.entries =~= nav_set_scroll(old(self)@, scroll).entries);
        }
    }

    /// Whether a step back is possible.
    pub fn can_go_back(&self) -> (r: bool)
        ensures
            r == nav_can_go_back(self@),
    {
        self.history_index > 0
    }

    /// Whether a step forward is possible.
    pub fn can_go_forward(&self) -> (r: bool)
        ensures
            r == nav_can_go_forward(self@),
    {
        self.history.len() > 0 && self.history_index < self.history.len() - 1
    }

    /// Step back one entry and return it, or return `None` (leaving the
    /// state unchanged) when already at the oldest entry.
    pub fn go_back(&mut self) -> (r: Option<ViewHistory>)
        requires
            nav_wf(old(self)@),
        ensures
            final(self)@ == nav_back(old(self)@),
            nav_wf(final(self)@),
            nav_can_go_back(old(self)@) ==> r is Some && r->0@ == old(self)@.entries[old(
                self,
            )@.cursor - 1],
            !nav_can_go_back(old(self)@) ==> r is None,
    {
        if self.history_index > 0 {
            self.history_index = self.history_index - 1;
            let path = self.history[self.history_index].path.clone();
            let scroll = self.history[self.history_index].scroll;
            self.current_path = path.clone();
            self.path_input = path.clone();
            Some(ViewHistory { path, scroll })
        } else {
            None
        }
    }

    /// Step forward one entry and return it, or return `None` (leaving
    /// the state unchanged) when already at the newest entry.
    pub fn go_forward(&mut self) -> (r: Option<ViewHistory>)
        requires
            nav_wf(old(self)@),
        ensures
            final(self)@ == nav_forward(old(self)@),
            nav_wf(final(self)@),
            nav_can_go_forward(old(self)@) ==> r is Some && r->0@ == old(self)@.entries[old(
                self,
            )@.cursor + 1],
            !nav_can_go_forward(old(self)@) ==> r is None,
    {
        if self.history_index + 1 < self.history.len() {
            self.history_index = self.history_index + 1;
            let path = self.history[self.history_index].path.clone();
            let scroll = self.history[self.history_index].scroll;
            self.current_path = path.clone();
            self.path_input = path.clone();
            Some(ViewHistory { path, scroll })
        } else {
            None
        }
    }

    /// The scroll position of the entry under the cursor, or `0` when
    /// the cursor is out of range.
    pub fn get_current_scroll(&self) -> (r: u32)
        ensures
            r == (if 0 <= self@.cursor < self@.entries.len() {
                self@.entries[self@.cursor].scroll
            } else {
                0
            }),
    {
        if self.history_index < self.history.len() {
            self.history[self.history_index].scroll
        } else {
            0
        }
    }

    /// Every visited path in visit order, with consecutive duplicates
    /// collapsed; under the invariant this is exactly the path of each
    /// entry in order.
    pub fn get_visited_paths(&self) -> (r: Vec<String>)
        ensures
            r@.map_values(|p: String| p@) == dedup_paths(self@.entries),
            nav_wf(self@) ==> r@.map_values(|p: String| p@) == self@.entries.map_values(
                |e: VisitView| e.path,
            ),
    {
        proof {
            if nav_wf(self@) {
                lemma_dedup_is_identity(self@.entries);
            }
        }
        let ghost entries = self@.entries;
        let mut r: Vec<String> = Vec::new();
        let mut i: usize = 0;
        while i < self.history.len()
            invariant
                i <= self.history@.len(),
                entries == entries_of(self.history@),
                r@.map_values(|p: String| p@) =~= dedup_paths(entries.take(i as int)),
                i > 0 ==> r@.len() > 0,
            decreases self.history@.len() - i,
        {
            let e = &self.history[i];
            let keep = if i == 0 {
                true
            } else {
                !e.path.eq(&self.history[i - 1].path)
            };
            proof {
                assert(entries.take(i + 1).drop_last() =~= entries.take(i as int));
                assert(entries.take(i + 1).last() == entries[i as int]);
            }
            if keep {
                r.push(e.path.clone());
                proof {
                    assert(r@.map_values(|p: String| p@) =~= dedup_paths(entries.take(i + 1)));
                }
            } else {
                proof {
                    assert(r@.map_values(|p: String| p@) =~= dedup_paths(entries.take(i + 1)));
                }
            }
            i = i + 1;
        }
        proof {
            assert(entries.take(i as int) =~= entries);
        }
        r
    }
}

/// After navigating to a directory other than the current one, a step
/// back is always possible; a fresh history allows none.
pub proof fn lemma_back_available_after_navigate(s: NavView, p: Seq<char>)
    requires
        nav_wf(s),
        p != s.current,
    ensures
        nav_can_go_back(nav_navigate(s, p)),
{
    lemma_navigate_preserves_wf(s, p);
}

/// Navigating twice in a row to the same path changes nothing the
/// second time; in particular the history length is unchanged.
pub proof fn lemma_repeat_navigate_is_noop(s: NavView, p: Seq<char>)
    requires
        nav_wf(s),
    ensures
        nav_navigate(nav_navigate(s, p), p) == nav_navigate(s, p),
{
    lemma_navigate_preserves_wf(s, p);
}

/// Branch truncation: going back and then navigating to a different
/// directory discards the forward branch, so a subsequent step forward
/// is impossible.
pub proof fn lemma_branch_truncation(s: NavView, p: Seq<char>)
    requires
        nav_wf(s),
        p != nav_back(s).current,
    ensures
        !nav_can_go_forward(nav_navigate(nav_back(s), p)),
{
    let b = nav_back(s);
    assert(nav_wf(b));
    lemma_navigate_preserves_wf(b, p);
}

/// The history bound holds in every reachable state, and after a real
/// navigation the cursor rests on the entry for the new path.
pub proof fn lemma_history_bounded(s: NavView, p: Seq<char>)
    requires
        nav_wf(s),
    ensures
        nav_navigate(s, p).entries.len() <= s.limit,
        p != s.current ==> nav_navigate(s, p).cursor == nav_navigate(s, p).entries.len() - 1,
        p != s.current ==> nav_navigate(s, p).entries[nav_navigate(s, p).cursor].path == p,
{
    lemma_navigate_preserves_wf(s, p);
}

/// Under the invariant the deduplicated path list is just every
/// entry's path in order: adjacent duplicates never arise.
pub proof fn lemma_dedup_is_identity(entries: Seq<VisitView>)
    requires
        forall|i: int|
            0 <= i < entries.len() - 1 ==> entries[i].path != #[trigger] entries[i + 1].path,
    ensures
        dedup_paths(entries) == entries.map_values(|e: VisitView| e.path),
    decreases entries.len(),
{
    if entries.len() > 1 {
        assert(forall|i: int|
            0 <= i < entries.drop_last().len() ==> entries.drop_last()[i] == #[trigger] entries[i]);
        lemma_dedup_is_identity(entries.drop_last());
        assert(entries[entries.len() - 2].path != entries[entries.len() - 2 + 1].path);
        assert(dedup_paths(entries) =~= entries.map_values(|e: VisitView| e.path));
    } else {
        assert(dedup_paths(entries) =~= entries.map_values(|e: VisitView| e.path));
    }
}

} // verus!
