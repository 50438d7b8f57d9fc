//! The browse controller: a state machine over input mode, query text,
//! pagination, sort and selection. It consumes discrete keys, mutates its
//! own state synchronously, and answers with the one action its
//! collaborators must perform — fetch a page of results, or open a magnet
//! link. Fetch outcomes come back through `finish_search`.

use vstd::prelude::*;

use crate::model::{sort_succ, Category, Sort, Torrent};
use crate::text::{push_char, trim_str, trimmed_of};

verus! {

/// Which commands are accepted: navigation in `Normal`, text entry in
/// `Editing`.
#[derive(Debug, Clone, Copy, PartialEq, Eq, Structural)]
pub enum InputMode {
    Normal,
    Editing,
}

/// One discrete key delivered by the input collaborator; everything the
/// state machine distinguishes.
#[derive(Debug, Clone, Copy, PartialEq, Eq, Structural)]
pub enum Key {
    Char(char),
    Enter,
    Esc,
    Tab,
    Backspace,
    Up,
    Down,
    Left,
    Right,
}

/// The transition a key triggers in a given mode.
#[derive(Debug, Clone, Copy, PartialEq, Eq, Structural)]
pub enum Cmd {
    Quit,
    EnterEdit,
    ExitEdit,
    SelNext,
    SelPrev,
    CycleSort,
    PageNext,
    PagePrev,
    Activate,
    Submit,
    Append(char),
    Erase,
    Ignore,
}

/// One search request handed to the fetch client.
#[derive(Debug, Clone, PartialEq, Eq)]
pub struct SearchRequest {
    pub query: String,
    pub category: Category,
    pub sort: Sort,
    pub page: u32,
}

/// What the controller asks its collaborators to do after a key.
#[derive(Debug, Clone, PartialEq, Eq)]
pub enum Action {
    Idle,
    Fetch(SearchRequest),
    OpenMagnet(String),
}

/// The query text, input mode and fetch status.
pub struct SearchState {
    pub input: String,
    pub mode: InputMode,
    pub is_loading: bool,
    pub messages: Vec<String>,
}

impl Default for SearchState {
    /// Starts empty, in `Editing` mode, with no fetch in flight.
    fn default() -> (r: Self)
        ensures
            r.input@.len() == 0,
            r.mode == InputMode::Editing,
            !r.is_loading,
            r.messages@.len() == 0,
    {
        SearchState { input: String::new(), mode: InputMode::Editing, is_loading: false, messages: Vec::new() }
    }
}

/// The result list and its cursor: selection, page and sort.
pub struct TableData {
    pub results: Vec<Torrent>,
    pub selected: Option<usize>,
    pub current_page: u32,
    pub current_sort: Sort,
    pub last_selected_index: Option<usize>,
}

/// Where `next` moves the selection: one step down, wrapping past the last
/// row to the first; an empty table or no selection both land on 0.
pub open spec fn next_of(i: nat, n: nat) -> nat {
    if i + 1 >= n {
        0
    } else {
        i + 1
    }
}

/// Where `previous` moves the selection: one step up, wrapping past the
/// first row to the last; an empty table lands on 0.
pub open spec fn prev_of(i: nat, n: nat) -> nat {
    if n == 0 {
        0
    } else if i == 0 {
        (n - 1) as nat
    } else {
        (i - 1) as nat
    }
}

pub open spec fn next_sel(sel: Option<usize>, n: nat) -> nat {
    match sel {
        Some(i) => next_of(i as nat, n),
        None => 0,
    }
}

pub open spec fn prev_sel(sel: Option<usize>, n: nat) -> nat {
    match sel {
        Some(i) => prev_of(i as nat, n),
        None => 0,
    }
}

/// k successive `next` steps from index i over n rows.
pub open spec fn iterate_next(i: nat, n: nat, k: nat) -> nat
    decreases k,
{
    if k == 0 {
        i
    } else {
        next_of(iterate_next(i, n, (k - 1) as nat), n)
    }
}

/// One `next` or `previous` step from a valid index stays inside [0, n).
pub proof fn lemma_nav_in_range(i: nat, n: nat)
    requires
        i < n,
    ensures
        next_of(i, n) < n,
        prev_of(i, n) < n,
{
}

/// From any valid starting index, `next` keeps the selection inside
/// [0, n) at every step, and applied exactly n times returns to the
/// starting index.
pub proof fn lemma_selection_wraparound(i: nat, n: nat, k: nat)
    requires
        i < n,
        k <= n,
    ensures
        iterate_next(i, n, k) == if i + k < n {
            i + k
        } else {
            (i + k - n) as nat
        },
        iterate_next(i, n, k) < n,
        k == n ==> iterate_next(i, n, k) == i,
    decreases k,
{
    if k > 0 {
        lemma_selection_wraparound(i, n, (k - 1) as nat);
    }
}

impl TableData {
    /// A selection cursor points at a row, or at 0 while the table is
    /// empty; the page count starts at 1.
    pub open spec fn wf(self) -> bool {
        &&& self.current_page >= 1
        &&& match self.selected {
            Some(i) => i < self.results@.len() || i == 0,
            None => true,
        }
        &&& match self.last_selected_index {
            Some(i) => i < self.results@.len() || i == 0,
            None => true,
        }
    }
}

impl Default for TableData {
    /// Starts empty on page 1. The initial sort key is Seeders — chosen
    /// here explicitly as the session default; the wire default of the
    /// sort enumeration itself is Date.
    fn default() -> (r: Self)
        ensures
            r.results@.len() == 0,
            r.selected is None,
            r.current_page == 1,
            r.current_sort == Sort::Seeders,
            r.last_selected_index is None,
            r.wf(),
    {
        TableData {
            results: Vec::new(),
            selected: None,
            current_page: 1,
            current_sort: Sort::Seeders,
            last_selected_index: None,
        }
    }
}

impl TableData {
    /// Move the selection one row down, wrapping; report whether it
    /// actually moved, so the caller can reset its animation.
    pub fn next(&mut self) -> (changed: bool)
        ensures
            ({
                let j = next_sel(old(self).selected, old(self).results@.len());
                &&& *final(self) == (TableData {
                    selected: Some(j as usize),
                    last_selected_index: Some(j as usize),
                    ..*old(self)
                })
                &&& changed == (old(self).last_selected_index != Some(j as usize))
            }),
            old(self).wf() ==> final(self).wf(),
    {
        let n = self.results.len();
        let i: usize = match self.selected {
            Some(i) => if n == 0 || i >= n - 1 {
                0
            } else {
                i + 1
            },
            None => 0,
        };
        self.selected = Some(i);
        let changed = match self.last_selected_index {
            Some(j) => j != i,
            None => true,
        };
        self.last_selected_index = Some(i);
        changed
    }

    /// Move the selection one row up, wrapping; report whether it moved.
    pub fn previous(&mut self) -> (changed: bool)
        ensures
            ({
                let j = prev_sel(old(self).selected, old(self).results@.len());
                &&& *final(self) == (TableData {
                    selected: Some(j as usize),
                    last_selected_index: Some(j as usize),
                    ..*old(self)
                })
                &&& changed == (old(self).last_selected_index != Some(j as usize))
            }),
            old(self).wf() ==> final(self).wf(),
    {
        let n = self.results.len();
        let i: usize = match self.selected {
            Some(i) => if n == 0 {
                0
            } else if i == 0 {
                n - 1
            } else {
                i - 1
            },
            None => 0,
        };
        self.selected = Some(i);
        let changed = match self.last_selected_index {
            Some(j) => j != i,
            None => true,
        };
        self.last_selected_index = Some(i);
        changed
    }
}

/// What the controller polls for on a timer tick, besides advancing its
/// animation counter: nothing, the theme file's modification time, or a
/// fresh look for a theme file path.
#[derive(Debug, Clone, Copy, PartialEq, Eq, Structural)]
pub enum ThemePoll {
    Idle,
    CheckFile,
    FindPath,
}

/// The fixed polling cadence: every 5th tick check the known theme file;
/// every 30th tick, when no path is known, look for one.
pub open spec fn theme_poll_spec(tick: nat, path_known: bool) -> ThemePoll {
    if tick % 5 == 0 {
        if path_known {
            ThemePoll::CheckFile
        } else if tick % 30 == 0 {
            ThemePoll::FindPath
        } else {
            ThemePoll::Idle
        }
    } else {
        ThemePoll::Idle
    }
}

/// The controller's complete session state.
pub struct App {
    pub search: SearchState,
    pub table: TableData,
    pub should_quit: bool,
    pub animation_tick: usize,
}

/// A query is blank when it trims to nothing; a blank query never
/// triggers a fetch.
pub open spec fn blank_query(a: App) -> bool {
    trimmed_of(a.search.input@).len() == 0
}

impl App {
    pub open spec fn wf(self) -> bool {
        self.table.wf()
    }
}

impl Default for App {
    fn default() -> (r: Self)
        ensures
            r.search.input@.len() == 0,
            r.search.mode == InputMode::Editing,
            !r.search.is_loading,
            r.search.messages@.len() == 0,
            r.table.results@.len() == 0,
            r.table.selected is None,
            r.table.current_page == 1,
            r.table.current_sort == Sort::Seeders,
            !r.should_quit,
            r.animation_tick == 0,
            r.wf(),
    {
        App {
            search: SearchState::default(),
            table: TableData::default(),
            should_quit: false,
            animation_tick: 0,
        }
    }
}

impl App {
    /// A fresh session: empty query in `Editing` mode, empty table on
    /// page 1 sorted by Seeders.
    pub fn new() -> (r: Self)
        ensures
            r.search.input@.len() == 0,
            r.search.mode == InputMode::Editing,
            !r.search.is_loading,
            r.search.messages@.len() == 0,
            r.table.results@.len() == 0,
            r.table.selected is None,
            r.table.current_page == 1,
            r.table.current_sort == Sort::Seeders,
            !r.should_quit,
            r.animation_tick == 0,
            r.wf(),
    {
        App::default()
    }

    /// Start a search over the current query, sort and page: a no-op on a
    /// blank query; otherwise marks loading, clears the status messages,
    /// and hands back the request the fetch client must perform.
    pub fn perform_search(&mut self) -> (req: Option<SearchRequest>)
        ensures
            blank_query(*old(self)) ==> *final(self) == *old(self) && req is None,
            !blank_query(*old(self)) ==> {
                &&& final(self).search.is_loading
                &&& final(self).search.messages@.len() == 0
                &&& final(self).search.input == old(self).search.input
                &&& final(self).search.mode == old(self).search.mode
                &&& final(self).table == old(self).table
                &&& final(self).should_quit == old(self).should_quit
                &&& final(self).animation_tick == old(self).animation_tick
                &&& req matches Some(r) && r.query@ == old(self).search.input@
                    && r.category == Category::All && r.sort == old(self).table.current_sort
                    && r.page == old(self).table.current_page
            },
            old(self).wf() ==> final(self).wf(),
    {
        let trimmed = trim_str(self.search.input.as_str());
        if trimmed.as_str().is_empty() {
            return None;
        }
        self.search.is_loading = true;
        self.search.messages.clear();
        Some(
            SearchRequest {
                query: self.search.input.clone(),
                category: Category::All,
                sort: self.table.current_sort,
                page: self.table.current_page,
            },
        )
    }

    /// Apply a fetch outcome. Success replaces the results and selects the
    /// first row, if there is one; failure keeps the prior results and
    /// appends a one-line status message. Either way the loading flag
    /// clears.
    pub fn finish_search(&mut self, outcome: Result<Vec<Torrent>, String>)
        ensures
            !final(self).search.is_loading,
            final(self).search.input == old(self).search.input,
            final(self).search.mode == old(self).search.mode,
            final(self).should_quit == old(self).should_quit,
            outcome matches Ok(ts) ==> {
                let sel: Option<usize> = if ts@.len() > 0 {
                    Some(0usize)
                } else {
                    None
                };
                &&& final(self).table == (TableData {
                    results: ts,
                    selected: sel,
                    last_selected_index: sel,
                    ..old(self).table
                })
                &&& final(self).search.messages == old(self).search.messages
                &&& final(self).animation_tick == 0
            },
            outcome matches Err(e) ==> {
                &&& final(self).table == old(self).table
                &&& final(self).animation_tick == old(self).animation_tick
                &&& final(self).search.messages@.len() == old(self).search.messages@.len() + 1
                &&& final(self).search.messages@.subrange(
                    0,
                    old(self).search.messages@.len() as int,
                ) == old(self).search.messages@
                &&& final(self).search.messages@.last()@ == "error: "@ + e@
            },
            old(self).wf() ==> final(self).wf(),
    {
        match outcome {
            Ok(ts) => {
                let sel: Option<usize> = if ts.len() > 0 {
                    Some(0)
                } else {
                    None
                };
                self.table.results = ts;
                self.table.selected = sel;
                self.table.last_selected_index = sel;
                self.animation_tick = 0;
            },
            Err(e) => {
                let mut msg = String::from_str("error: ");
                msg.append(e.as_str());
                self.search.messages.push(msg);
                proof {
                    assert(self.search.messages@.subrange(
                        0,
                        old(self).search.messages@.len() as int,
                    ) =~= old(self).search.messages@);
                }
            },
        }
        self.search.is_loading = false;
    }

    /// Turn to the next page and re-run the search — only once there are
    /// results to page through.
    pub fn next_page(&mut self) -> (req: Option<SearchRequest>)
        requires
            old(self).table.current_page < u32::MAX,
        ensures
            old(self).table.results@.len() == 0 ==> *final(self) == *old(self) && req is None,
            old(self).table.results@.len() > 0 ==> {
                &&& final(self).table == (TableData {
                    current_page: (old(self).table.current_page + 1) as u32,
                    ..old(self).table
                })
                &&& final(self).search.input == old(self).search.input
                &&& final(self).search.mode == old(self).search.mode
                &&& final(self).should_quit == old(self).should_quit
                &&& final(self).animation_tick == old(self).animation_tick
                &&& blank_query(*old(self)) ==> req is None
                    && final(self).search.is_loading == old(self).search.is_loading
                    && final(self).search.messages == old(self).search.messages
                &&& !blank_query(*old(self)) ==> final(self).search.is_loading
                    && final(self).search.messages@.len() == 0 && (req matches Some(r)
                    && r.query@ == old(self).search.input@ && r.category == Category::All
                    && r.sort == old(self).table.current_sort && r.page == old(
                    self,
                ).table.current_page + 1)
            },
            old(self).wf() ==> final(self).wf(),
    {
        if self.table.results.is_empty() {
            return None;
        }
        self.table.current_page = self.table.current_page + 1;
        self.perform_search()
    }

    /// Turn back one page and re-run the search; on page 1 this is a
    /// no-op — no page change, no fetch.
    pub fn prev_page(&mut self) -> (req: Option<SearchRequest>)
        ensures
            old(self).table.current_page <= 1 ==> *final(self) == *old(self) && req is None,
            old(self).table.current_page > 1 ==> {
                &&& final(self).table == (TableData {
                    current_page: (old(self).table.current_page - 1) as u32,
                    ..old(self).table
                })
                &&& final(self).search.input == old(self).search.input
                &&& final(self).search.mode == old(self).search.mode
                &&& final(self).should_quit == old(self).should_quit
                &&& final(self).animation_tick == old(self).animation_tick
                &&& blank_query(*old(self)) ==> req is None
                    && final(self).search.is_loading == old(self).search.is_loading
                    && final(self).search.messages == old(self).search.messages
                &&& !blank_query(*old(self)) ==> final(self).search.is_loading
                    && final(self).search.messages@.len() == 0 && (req matches Some(r)
                    && r.query@ == old(self).search.input@ && r.category == Category::All
                    && r.sort == old(self).table.current_sort && r.page == old(
                    self,
                ).table.current_page - 1)
            },
            old(self).wf() ==> final(self).wf(),
    {
        if self.table.current_page > 1 {
            self.table.current_page = self.table.current_page - 1;
            self.perform_search()
        } else {
            None
        }
    }

    /// Advance the sort key one step in its fixed cycle, reset to page 1,
    /// and re-run the search if a query is present.
    pub fn cycle_sort(&mut self) -> (req: Option<SearchRequest>)
        ensures
            final(self).table == (TableData {
                current_sort: sort_succ(old(self).table.current_sort),
                current_page: 1u32,
                ..old(self).table
            }),
            final(self).search.input == old(self).search.input,
            final(self).search.mode == old(self).search.mode,
            final(self).should_quit == old(self).should_quit,
            final(self).animation_tick == old(self).animation_tick,
            blank_query(*old(self)) ==> req is None && final(self).search.is_loading == old(
                self,
            ).search.is_loading && final(self).search.messages == old(self).search.messages,
            !blank_query(*old(self)) ==> final(self).search.is_loading
                && final(self).search.messages@.len() == 0 && (req matches Some(r) && r.query@
                == old(self).search.input@ && r.category == Category::All && r.sort == sort_succ(
                old(self).table.current_sort,
            ) && r.page == 1),
            old(self).wf() ==> final(self).wf(),
    {
        self.table.current_sort = self.table.current_sort.cycled();
        self.table.current_page = 1;
        self.perform_search()
    }

    /// The magnet link to hand to the link-opening collaborator: the
    /// selected record's, if a row is selected and its magnet link is
    /// non-empty.
    pub fn open_magnet(&self) -> (r: Option<String>)
        ensures
            r is Some <==> (self.table.selected matches Some(i) && i < self.table.results@.len()
                && self.table.results@[i as int].magnet_url@.len() > 0),
            r matches Some(m) ==> (self.table.selected matches Some(i) && m@
                == self.table.results@[i as int].magnet_url@),
    {
        match self.table.selected {
            Some(i) => {
                if i < self.table.results.len() {
                    let t = &self.table.results[i];
                    if !t.magnet_url.as_str().is_empty() {
                        Some(t.magnet_url.clone())
                    } else {
                        None
                    }
                } else {
                    None
                }
            },
            None => None,
        }
    }

    /// Advance the animation counter (wrapping) and report what theme
    /// polling is due on this tick.
    pub fn on_tick(&mut self, theme_path_known: bool) -> (p: ThemePoll)
        ensures
            final(self).animation_tick as int == (if old(self).animation_tick == usize::MAX {
                0int
            } else {
                old(self).animation_tick + 1
            }),
            *final(self) == (App { animation_tick: final(self).animation_tick, ..*old(self) }),
            p == theme_poll_spec(final(self).animation_tick as nat, theme_path_known),
            old(self).wf() ==> final(self).wf(),
    {
        self.animation_tick = if self.animation_tick == usize::MAX {
            0
        } else {
            self.animation_tick + 1
        };
        if self.animation_tick % 5 == 0 {
            if theme_path_known {
                ThemePoll::CheckFile
            } else if self.animation_tick % 30 == 0 {
                ThemePoll::FindPath
            } else {
                ThemePoll::Idle
            }
        } else {
            ThemePoll::Idle
        }
    }
}

/// The key interpretation table of the state machine, by mode.
pub open spec fn key_command(mode: InputMode, key: Key) -> Cmd {
    match mode {
        InputMode::Normal => match key {
            Key::Char(c) => if c == 'q' {
                Cmd::Quit
            } else if c == 'i' {
                Cmd::EnterEdit
            } else if c == 's' || c == 'j' {
                Cmd::SelNext
            } else if c == 'w' || c == 'k' {
                Cmd::SelPrev
            } else if c == 'z' {
                Cmd::CycleSort
            } else if c == 'd' {
                Cmd::PageNext
            } else if c == 'a' {
                Cmd::PagePrev
            } else {
                Cmd::Ignore
            },
            Key::Tab => Cmd::EnterEdit,
            Key::Down => Cmd::SelNext,
            Key::Up => Cmd::SelPrev,
            Key::Right => Cmd::PageNext,
            Key::Left => Cmd::PagePrev,
            Key::Enter => Cmd::Activate,
            _ => Cmd::Ignore,
        },
        InputMode::Editing => match key {
            Key::Tab => Cmd::ExitEdit,
            Key::Esc => Cmd::ExitEdit,
            Key::Enter => Cmd::Submit,
            Key::Char(c) => Cmd::Append(c),
            Key::Backspace => Cmd::Erase,
            _ => Cmd::Ignore,
        },
    }
}

impl App {
    /// Consume one key under the current input mode, as the interpretation
    /// table `key_command` says, and answer with the action to perform.
    pub fn handle_key_event(&mut self, key: Key) -> (act: Action)
        requires
            old(self).table.current_page < u32::MAX,
        ensures
            old(self).wf() ==> final(self).wf(),
            ({
                let pre = *old(self);
                let post = *final(self);
                match key_command(pre.search.mode, key) {
                    Cmd::Ignore => post == pre && act == Action::Idle,
                    Cmd::Quit => post == (App { should_quit: true, ..pre }) && act
                        == Action::Idle,
                    Cmd::EnterEdit => post == (App {
                        search: (SearchState { mode: InputMode::Editing, ..pre.search }),
                        ..pre
                    }) && act == Action::Idle,
                    Cmd::ExitEdit => post == (App {
                        search: (SearchState { mode: InputMode::Normal, ..pre.search }),
                        ..pre
                    }) && act == Action::Idle,
                    Cmd::SelNext => ({
                        let j = next_sel(pre.table.selected, pre.table.results@.len());
                        let moved = pre.table.last_selected_index != Some(j as usize);
                        &&& post == (App {
                            table: (TableData {
                                selected: Some(j as usize),
                                last_selected_index: Some(j as usize),
                                ..pre.table
                            }),
                            animation_tick: if moved {
                                0
                            } else {
                                pre.animation_tick
                            },
                            ..pre
                        })
                        &&& act == Action::Idle
                    }),
                    Cmd::SelPrev => ({
                        let j = prev_sel(pre.table.selected, pre.table.results@.len());
                        let moved = pre.table.last_selected_index != Some(j as usize);
                        &&& post == (App {
                            table: (TableData {
                                selected: Some(j as usize),
                                last_selected_index: Some(j as usize),
                                ..pre.table
                            }),
                            animation_tick: if moved {
                                0
                            } else {
                                pre.animation_tick
                            },
                            ..pre
                        })
                        &&& act == Action::Idle
                    }),
                    Cmd::Activate => {
                        &&& post == pre
                        &&& (act is OpenMagnet <==> (pre.table.selected matches Some(i) && i
                            < pre.table.results@.len()
                            && pre.table.results@[i as int].magnet_url@.len() > 0))
                        &&& (act matches Action::OpenMagnet(m) ==> (pre.table.selected
                            matches Some(i) && m@ == pre.table.results@[i as int].magnet_url@))
                        &&& act !is Fetch
                    },
                    Cmd::Append(c) => {
                        &&& post.search.input@ == pre.search.input@.push(c)
                        &&& post == (App {
                            search: (SearchState { input: post.search.input, ..pre.search }),
                            ..pre
                        })
                        &&& act == Action::Idle
                    },
                    Cmd::Erase => {
                        &&& post.search.input@ == (if pre.search.input@.len() == 0 {
                            pre.search.input@
                        } else {
                            pre.search.input@.drop_last()
                        })
                        &&& post == (App {
                            search: (SearchState { input: post.search.input, ..pre.search }),
                            ..pre
                        })
                        &&& act == Action::Idle
                    },
                    Cmd::Submit => {
                        &&& post.search.mode == InputMode::Normal
                        &&& post.search.input == pre.search.input
                        &&& post.table == pre.table
                        &&& post.should_quit == pre.should_quit
                        &&& post.animation_tick == pre.animation_tick
                        &&& blank_query(pre) ==> act == Action::Idle && post.search.is_loading
                            == pre.search.is_loading && post.search.messages
                            == pre.search.messages
                        &&& !blank_query(pre) ==> post.search.is_loading
                            && post.search.messages@.len() == 0 && (act matches Action::Fetch(r)
                            && r.query@ == pre.search.input@ && r.category == Category::All
                            && r.sort == pre.table.current_sort && r.page
                            == pre.table.current_page)
                    },
                    Cmd::CycleSort => {
                        &&& post.table == (TableData {
                            current_sort: sort_succ(pre.table.current_sort),
                            current_page: 1u32,
                            ..pre.table
                        })
                        &&& post.search.input == pre.search.input
                        &&& post.search.mode == pre.search.mode
                        &&& post.should_quit == pre.should_quit
                        &&& post.animation_tick == pre.animation_tick
                        &&& blank_query(pre) ==> act == Action::Idle && post.search.is_loading
                            == pre.search.is_loading && post.search.messages
                            == pre.search.messages
                        &&& !blank_query(pre) ==> post.search.is_loading
                            && post.search.messages@.len() == 0 && (act matches Action::Fetch(r)
                            && r.query@ == pre.search.input@ && r.category == Category::All
                            && r.sort == sort_succ(pre.table.current_sort) && r.page == 1)
                    },
                    Cmd::PageNext => {
                        &&& pre.table.results@.len() == 0 ==> post == pre && act == Action::Idle
                        &&& pre.table.results@.len() > 0 ==> {
                            &&& post.table == (TableData {
                                current_page: (pre.table.current_page + 1) as u32,
                                ..pre.table
                            })
                            &&& post.search.input == pre.search.input
                            &&& post.search.mode == pre.search.mode
                            &&& post.should_quit == pre.should_quit
                            &&& post.animation_tick == pre.animation_tick
                            &&& blank_query(pre) ==> act == Action::Idle
                                && post.search.is_loading == pre.search.is_loading
                                && post.search.messages == pre.search.messages
                            &&& !blank_query(pre) ==> post.search.is_loading
                                && post.search.messages@.len() == 0 && (act
                                matches Action::Fetch(r) && r.query@ == pre.search.input@
                                && r.category == Category::All && r.sort
                                == pre.table.current_sort && r.page == pre.table.current_page
                                + 1)
                        }
                    },
                    Cmd::PagePrev => {
                        &&& pre.table.current_page <= 1 ==> post == pre && act == Action::Idle
                        &&& pre.table.current_page > 1 ==> {
                            &&& post.table == (TableData {
                                current_page: (pre.table.current_page - 1) as u32,
                                ..pre.table
                            })
                            &&& post.search.input == pre.search.input
                            &&& post.search.mode == pre.search.mode
                            &&& post.should_quit == pre.should_quit
                            &&& post.animation_tick == pre.animation_tick
                            &&& blank_query(pre) ==> act == Action::Idle
                                && post.search.is_loading == pre.search.is_loading
                                && post.search.messages == pre.search.messages
                            &&& !blank_query(pre) ==> post.search.is_loading
                                && post.search.messages@.len() == 0 && (act
                                matches Action::Fetch(r) && r.query@ == pre.search.input@
                                && r.category == Category::All && r.sort
                                == pre.table.current_sort && r.page == pre.table.current_page
                                - 1)
                        }
                    },
                }
            }),
    {
        match self.search.mode {
            InputMode::Normal => {
                match key {
                    Key::Char(c) => {
                        if c == 'q' {
                            self.should_quit = true;
                            Action::Idle
                        } else if c == 'i' {
                            self.search.mode = InputMode::Editing;
                            Action::Idle
                        } else if c == 's' || c == 'j' {
                            if self.table.next() {
                                self.animation_tick = 0;
                            }
                            Action::Idle
                        } else if c == 'w' || c == 'k' {
                            if self.table.previous() {
                                self.animation_tick = 0;
                            }
                            Action::Idle
                        } else if c == 'z' {
                            match self.cycle_sort() {
                                Some(r) => Action::Fetch(r),
                                None => Action::Idle,
                            }
                        } else if c == 'd' {
                            match self.next_page() {
                                Some(r) => Action::Fetch(r),
                                None => Action::Idle,
                            }
                        } else if c == 'a' {
                            match self.prev_page() {
                                Some(r) => Action::Fetch(r),
                                None => Action::Idle,
                            }
                        } else {
                            Action::Idle
                        }
                    },
                    Key::Tab => {
                        self.search.mode = InputMode::Editing;
                        Action::Idle
                    },
                    Key::Down => {
                        if self.table.next() {
                            self.animation_tick = 0;
                        }
                        Action::Idle
                    },
                    Key::Up => {
                        if self.table.previous() {
                            self.animation_tick = 0;
                        }
                        Action::Idle
                    },
                    Key::Right => {
                        match self.next_page() {
                            Some(r) => Action::Fetch(r),
                            None => Action::Idle,
                        }
                    },
                    Key::Left => {
                        match self.prev_page() {
                            Some(r) => Action::Fetch(r),
                            None => Action::Idle,
                        }
                    },
                    Key::Enter => {
                        match self.open_magnet() {
                            Some(m) => Action::OpenMagnet(m),
                            None => Action::Idle,
                        }
                    },
                    _ => Action::Idle,
                }
            },
            InputMode::Editing => {
                match key {
                    Key::Tab => {
                        self.search.mode = InputMode::Normal;
                        Action::Idle
                    },
                    Key::Esc => {
                        self.search.mode = InputMode::Normal;
                        Action::Idle
                    },
                    Key::Enter => {
                        self.search.mode = InputMode::Normal;
                        match self.perform_search() {
                            Some(r) => Action::Fetch(r),
                            None => Action::Idle,
                        }
                    },
                    Key::Char(c) => {
                        push_char(&mut self.search.input, c);
                        Action::Idle
                    },
                    Key::Backspace => {
                        let n = self.search.input.as_str().unicode_len();
                        if n > 0 {
                            let shorter = self.search.input.as_str().substring_char(
                                0,
                                n - 1,
                            ).to_owned();
                            self.search.input = shorter;
                            proof {
                                assert(self.search.input@ =~= old(self).search.input@.drop_last());
                            }
                        }
                        Action::Idle
                    },
                    _ => Action::Idle,
                }
            },
        }
    }
}

} // verus!
