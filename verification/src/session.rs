//! The browser session: the complete in-memory state of one interactive
//! run, and the transition rules that every keystroke goes through.
//!
//! The central invariant, kept by every mutation: the selection is `None`
//! exactly when the result list is empty, and otherwise a valid index into
//! the current results.

use vstd::prelude::*;

use crate::db::{filter_tracks_spec, Database, StorageError};
use crate::track::TrackInfo;
use crate::{wrap_next, wrap_previous};

verus! {

/// Whether keystrokes drive navigation or text entry.
#[derive(Clone, Copy, Debug, PartialEq, Eq, Structural)]
pub enum InputMode {
    Normal,
    Editing,
}

/// Whether the content pane shows the whole result list or one track's
/// details.
#[derive(Clone, Copy, Debug, PartialEq, Eq, Structural)]
pub enum ViewMode {
    List,
    Detail,
}

/// One keyboard event, reduced to the cases the browser distinguishes.
#[derive(Clone, Copy, Debug, PartialEq, Eq, Structural)]
pub enum Key {
    Char(char),
    Up,
    Down,
    Left,
    Right,
    Enter,
    Esc,
    Backspace,
    Other,
}

/// The selection right after the result list was replaced: the first entry
/// when there is one, nothing otherwise.
pub open spec fn reset_selection(len: nat) -> Option<usize> {
    if len > 0 {
        Some(0usize)
    } else {
        None
    }
}

/// Where the selection stands after one step forward through `len` results.
pub open spec fn step_next_sel(sel: Option<usize>, len: nat) -> Option<usize> {
    if len == 0 {
        sel
    } else {
        match sel {
            Some(i) => Some(wrap_next(i as int, len as int) as usize),
            None => Some(0usize),
        }
    }
}

/// Where the selection stands after one step backward through `len` results.
pub open spec fn step_prev_sel(sel: Option<usize>, len: nat) -> Option<usize> {
    if len == 0 {
        sel
    } else {
        match sel {
            Some(i) => Some(wrap_previous(i as int, len as int) as usize),
            None => Some(0usize),
        }
    }
}

/// One upward scroll step: down to the floor of zero, never below it.
pub open spec fn step_scroll_up(s: u16) -> u16 {
    if s > 0 {
        (s - 1) as u16
    } else {
        0
    }
}

/// One downward scroll step, saturating at the widest offset.
pub open spec fn step_scroll_down(s: u16) -> u16 {
    if s < 0xffff {
        (s + 1) as u16
    } else {
        s
    }
}

/// The browser's complete state for one interactive session.
pub struct App {
    /// The store the session reads from.
    pub db: Database,
    /// The current result list, replaced wholesale on every query change.
    pub tracks: Vec<TrackInfo>,
    /// The selected entry of `tracks`, when there is one.
    pub selected: Option<usize>,
    /// The free-text query buffer.
    pub search_query: String,
    /// Whether keystrokes navigate or edit the query.
    pub input_mode: InputMode,
    /// Whether the content pane lists results or shows one track.
    pub view_mode: ViewMode,
    /// Set once the session should end after the current iteration.
    pub should_quit: bool,
    /// How far the detail view is scrolled down.
    pub detail_scroll: u16,
}

impl App {
    /// The selection invariant: `selected` is `None` exactly when `tracks`
    /// is empty, and otherwise a valid index into `tracks`.
    pub open spec fn inv(self) -> bool {
        match self.selected {
            None => self.tracks@.len() == 0,
            Some(i) => i < self.tracks@.len(),
        }
    }

    /// The state after one navigation keystroke in normal input mode.
    pub open spec fn normal_step(self, key: Key) -> App {
        match key {
            Key::Char(c) => {
                if c == 'q' {
                    App { should_quit: true, ..self }
                } else if c == '/' {
                    App { input_mode: InputMode::Editing, ..self }
                } else if c == 'j' {
                    self.down_step()
                } else if c == 'k' {
                    self.up_step()
                } else if c == 'l' {
                    self.right_step()
                } else if c == 'h' {
                    self.left_step()
                } else {
                    self
                }
            },
            Key::Down => self.down_step(),
            Key::Up => self.up_step(),
            Key::Right => self.right_step(),
            Key::Left => self.left_step(),
            Key::Enter => {
                match self.view_mode {
                    ViewMode::List => App { view_mode: ViewMode::Detail, detail_scroll: 0, ..self },
                    ViewMode::Detail => App { view_mode: ViewMode::List, detail_scroll: 0, ..self },
                }
            },
            Key::Esc => App { view_mode: ViewMode::List, detail_scroll: 0, ..self },
            _ => self,
        }
    }

    /// The down key: next entry in the list view, one scroll step in the
    /// detail view.
    pub open spec fn down_step(self) -> App {
        match self.view_mode {
            ViewMode::List => App {
                selected: step_next_sel(self.selected, self.tracks@.len()),
                ..self
            },
            ViewMode::Detail => App { detail_scroll: step_scroll_down(self.detail_scroll), ..self },
        }
    }

    /// The up key: previous entry in the list view, one scroll step up in
    /// the detail view.
    pub open spec fn up_step(self) -> App {
        match self.view_mode {
            ViewMode::List => App {
                selected: step_prev_sel(self.selected, self.tracks@.len()),
                ..self
            },
            ViewMode::Detail => App { detail_scroll: step_scroll_up(self.detail_scroll), ..self },
        }
    }

    /// The right key: in the detail view, the next track with the scroll
    /// reset; elsewhere nothing.
    pub open spec fn right_step(self) -> App {
        match self.view_mode {
            ViewMode::Detail => App {
                selected: step_next_sel(self.selected, self.tracks@.len()),
                detail_scroll: 0,
                ..self
            },
            ViewMode::List => self,
        }
    }

    /// The left key: in the detail view, the previous track with the scroll
    /// reset; elsewhere nothing.
    pub open spec fn left_step(self) -> App {
        match self.view_mode {
            ViewMode::Detail => App {
                selected: step_prev_sel(self.selected, self.tracks@.len()),
                detail_scroll: 0,
                ..self
            },
            ViewMode::List => self,
        }
    }

    /// A fresh session over `db`: the full unfiltered result set, the first
    /// entry selected when there is one, normal input, list view.  Fails
    /// exactly when the initial load fails, and then starts no session.
    pub fn new(db: Database) -> (r: Result<App, StorageError>)
        ensures
            r matches Ok(app) ==> {
                &&& app.inv()
                &&& app.selected == reset_selection(app.tracks@.len())
                &&& app.search_query@ == Seq::<char>::empty()
                &&& app.input_mode == InputMode::Normal
                &&& app.view_mode == ViewMode::List
                &&& !app.should_quit
                &&& app.detail_scroll == 0
            },
            r matches Err(e) ==> e == StorageError::Query,
    {
        let tracks = match db.get_all_tracks() {
            Ok(tracks) => tracks,
            Err(e) => {
                return Err(e);
            },
        };
        let selected: Option<usize> = if tracks.len() > 0 {
            Some(0)
        } else {
            None
        };
        Ok(
            App {
                db,
                tracks,
                selected,
                search_query: String::new(),
                input_mode: InputMode::Normal,
                view_mode: ViewMode::List,
                should_quit: false,
                detail_scroll: 0,
            },
        )
    }

    /// Advances the selection by one, wrapping from the last entry to the
    /// first; with no results this is a no-op.
    pub fn next(&mut self)
        requires
            old(self).inv(),
        ensures
            final(self).inv(),
            *final(self) == (App {
                selected: step_next_sel(old(self).selected, old(self).tracks@.len()),
                ..*old(self)
            }),
    {
        if self.tracks.len() == 0 {
            return ;
        }
        let i: usize = match self.selected {
            Some(i) => {
                if i >= self.tracks.len() - 1 {
                    0
                } else {
                    i + 1
                }
            },
            None => 0,
        };
        self.selected = Some(i);
    }

    /// Moves the selection back by one, wrapping from the first entry to
    /// the last; with no results this is a no-op.
    pub fn previous(&mut self)
        requires
            old(self).inv(),
        ensures
            final(self).inv(),
            *final(self) == (App {
                selected: step_prev_sel(old(self).selected, old(self).tracks@.len()),
                ..*old(self)
            }),
    {
        if self.tracks.len() == 0 {
            return ;
        }
        let i: usize = match self.selected {
            Some(i) => {
                if i == 0 {
                    self.tracks.len() - 1
                } else {
                    i - 1
                }
            },
            None => 0,
        };
        self.selected = Some(i);
    }

    /// Scrolls the detail view down by one line, saturating at the widest
    /// offset.
    pub fn scroll_down(&mut self)
        ensures
            *final(self) == (App { detail_scroll: step_scroll_down(old(self).detail_scroll), ..*old(
                self,
            ) }),
    {
        self.detail_scroll = if self.detail_scroll == 0xffff {
            0xffff
        } else {
            self.detail_scroll + 1
        };
    }

    /// Scrolls the detail view up by one line; at the top it stays at the
    /// top, so the offset never goes below zero.
    pub fn scroll_up(&mut self)
        ensures
            *final(self) == (App { detail_scroll: step_scroll_up(old(self).detail_scroll), ..*old(
                self,
            ) }),
    {
        self.detail_scroll = if self.detail_scroll == 0 {
            0
        } else {
            self.detail_scroll - 1
        };
    }

    /// Puts the detail view back at its top.
    pub fn reset_scroll(&mut self)
        ensures
            *final(self) == (App { detail_scroll: 0, ..*old(self) }),
    {
        self.detail_scroll = 0;
    }

    /// Replaces the result list wholesale and re-establishes the
    /// selection: the first entry when the new list is non-empty, nothing
    /// otherwise.  Selection is not preserved across a refresh.
    pub fn reselect_after_refresh(&mut self, new_results: Vec<TrackInfo>)
        ensures
            final(self).inv(),
            *final(self) == (App {
                tracks: new_results,
                selected: reset_selection(new_results@.len()),
                ..*old(self)
            }),
    {
        self.tracks = new_results;
        if self.tracks.len() > 0 {
            self.selected = Some(0);
        } else {
            self.selected = None;
        }
    }

    /// Re-runs the current query against the store.  On success the result
    /// list is exactly the store's rows filtered by the query (all rows for
    /// an empty query) and the selection is reset to the first entry; on
    /// failure the prior results and selection stay untouched.
    pub fn update_search(&mut self) -> (r: Result<(), StorageError>)
        requires
            old(self).inv(),
        ensures
            final(self).inv(),
            final(self).db == old(self).db,
            final(self).search_query == old(self).search_query,
            final(self).input_mode == old(self).input_mode,
            final(self).view_mode == old(self).view_mode,
            final(self).should_quit == old(self).should_quit,
            final(self).detail_scroll == old(self).detail_scroll,
            r matches Ok(u) ==> {
                &&& (exists|all: Seq<TrackInfo>|
                    final(self).tracks@ == filter_tracks_spec(all, old(self).search_query@))
                &&& final(self).selected == reset_selection(final(self).tracks@.len())
            },
            r matches Err(e) ==> {
                &&& e == StorageError::Query
                &&& final(self).tracks == old(self).tracks
                &&& final(self).selected == old(self).selected
            },
    {
        let result = if self.search_query.as_str().unicode_len() == 0 {
            match self.db.get_all_tracks() {
                Ok(v) => {
                    proof {
                        crate::db::lemma_empty_query_keeps_all(v@);
                        assert(self.search_query@ =~= Seq::<char>::empty());
                    }
                    Ok(v)
                },
                Err(e) => Err(e),
            }
        } else {
            self.db.search_tracks(self.search_query.as_str())
        };
        match result {
            Ok(new_tracks) => {
                self.reselect_after_refresh(new_tracks);
                Ok(())
            },
            Err(e) => Err(e),
        }
    }

    /// The selected record, when there is one.
    pub fn selected_track(&self) -> (r: Option<&TrackInfo>)
        requires
            self.inv(),
        ensures
            r is Some <==> self.selected is Some,
            r matches Some(t) ==> *t == self.tracks@[self.selected->0 as int],
    {
        match self.selected {
            Some(i) => Some(&self.tracks[i]),
            None => None,
        }
    }

    /// Applies one keystroke.  In normal input mode the state moves exactly
    /// as `normal_step` says.  In editing mode, enter and escape return to
    /// normal input without touching the results; a character appends to the
    /// query and backspace drops its last character, and either re-runs the
    /// query, keeping the prior results and selection whenever the store
    /// fails.  The selection invariant holds afterwards in every case.
    pub fn handle_key(&mut self, key: Key)
        requires
            old(self).inv(),
        ensures
            final(self).inv(),
            old(self).input_mode == InputMode::Normal ==> *final(self) == old(self).normal_step(
                key,
            ),
            old(self).input_mode == InputMode::Editing ==> {
                match key {
                    Key::Enter | Key::Esc => *final(self) == (App {
                        input_mode: InputMode::Normal,
                        ..*old(self)
                    }),
                    Key::Char(c) => final(self).search_query@ == old(self).search_query@.push(c)
                        && old(self).edit_outcome(*final(self)),
                    Key::Backspace => final(self).search_query@ == (if old(
                        self,
                    ).search_query@.len() > 0 {
                        old(self).search_query@.drop_last()
                    } else {
                        old(self).search_query@
                    }) && old(self).edit_outcome(*final(self)),
                    _ => *final(self) == *old(self),
                }
            },
    {
        match self.input_mode {
            InputMode::Normal => {
                match key {
                    Key::Char(c) => {
                        if c == 'q' {
                            self.should_quit = true;
                        } else if c == '/' {
                            self.input_mode = InputMode::Editing;
                        } else if c == 'j' {
                            self.down_key();
                        } else if c == 'k' {
                            self.up_key();
                        } else if c == 'l' {
                            self.right_key();
                        } else if c == 'h' {
                            self.left_key();
                        }
                    },
                    Key::Down => self.down_key(),
                    Key::Up => self.up_key(),
                    Key::Right => self.right_key(),
                    Key::Left => self.left_key(),
                    Key::Enter => {
                        self.reset_scroll();
                        match self.view_mode {
                            ViewMode::List => {
                                self.view_mode = ViewMode::Detail;
                            },
                            ViewMode::Detail => {
                                self.view_mode = ViewMode::List;
                            },
                        }
                    },
                    Key::Esc => {
                        self.reset_scroll();
                        self.view_mode = ViewMode::List;
                    },
                    _ => {},
                }
            },
            InputMode::Editing => {
                match key {
                    Key::Enter => {
                        self.input_mode = InputMode::Normal;
                    },
                    Key::Esc => {
                        self.input_mode = InputMode::Normal;
                    },
                    Key::Char(c) => {
                        crate::text::push_char(&mut self.search_query, c);
                        let _ = self.update_search();
                    },
                    Key::Backspace => {
                        let n = self.search_query.as_str().unicode_len();
                        if n > 0 {
                            let shorter = self.search_query.as_str().substring_char(
                                0,
                                n - 1,
                            ).to_owned();
                            proof {
                                assert(shorter@ =~= self.search_query@.drop_last());
                            }
                            self.search_query = shorter;
                        }
                        let _ = self.update_search();
                    },
                    _ => {},
                }
            },
        }
    }

    /// What one editing keystroke leaves behind once the query was re-run:
    /// either the store answered and the results are exactly the new rows
    /// filtered by the new query with the selection reset, or it failed and
    /// results and selection are the prior ones.  Everything else — view
    /// mode, quit flag, scroll, the store handle — stays put.
    pub open spec fn edit_outcome(self, post: App) -> bool {
        &&& post.db == self.db
        &&& post.input_mode == self.input_mode
        &&& post.view_mode == self.view_mode
        &&& post.should_quit == self.should_quit
        &&& post.detail_scroll == self.detail_scroll
        &&& ((exists|all: Seq<TrackInfo>|
            post.tracks@ == filter_tracks_spec(all, post.search_query@)) && post.selected
            == reset_selection(post.tracks@.len()) || post.tracks == self.tracks && post.selected
            == self.selected)
    }

    /// The down key in normal mode.
    fn down_key(&mut self)
        requires
            old(self).inv(),
        ensures
            final(self).inv(),
            *final(self) == old(self).down_step(),
    {
        match self.view_mode {
            ViewMode::List => self.next(),
            ViewMode::Detail => self.scroll_down(),
        }
    }

    /// The up key in normal mode.
    fn up_key(&mut self)
        requires
            old(self).inv(),
        ensures
            final(self).inv(),
            *final(self) == old(self).up_step(),
    {
        match self.view_mode {
            ViewMode::List => self.previous(),
            ViewMode::Detail => self.scroll_up(),
        }
    }

    /// The right key in normal mode.
    fn right_key(&mut self)
        requires
            old(self).inv(),
        ensures
            final(self).inv(),
            *final(self) == old(self).right_step(),
    {
        match self.view_mode {
            ViewMode::Detail => {
                self.next();
                self.reset_scroll();
            },
            ViewMode::List => {},
        }
    }

    /// The left key in normal mode.
    fn left_key(&mut self)
        requires
            old(self).inv(),
        ensures
            final(self).inv(),
            *final(self) == old(self).left_step(),
    {
        match self.view_mode {
            ViewMode::Detail => {
                self.previous();
                self.reset_scroll();
            },
            ViewMode::List => {},
        }
    }
}

/// The selection after `k` forward steps through `len` results.
pub open spec fn iterate_next_sel(sel: Option<usize>, len: nat, k: nat) -> Option<usize>
    decreases k,
{
    if k == 0 {
        sel
    } else {
        step_next_sel(iterate_next_sel(sel, len, (k - 1) as nat), len)
    }
}

/// The scroll offset after `k` upward steps.
pub open spec fn iterate_scroll_up(s: u16, k: nat) -> u16
    decreases k,
{
    if k == 0 {
        s
    } else {
        step_scroll_up(iterate_scroll_up(s, (k - 1) as nat))
    }
}

/// After `k` forward steps the selection stands `k` places further on,
/// modulo the length of the list.
proof fn lemma_iterate_next_sel_value(i: usize, len: nat, k: nat)
    requires
        i < len <= usize::MAX,
        k <= len,
    ensures
        iterate_next_sel(Some(i), len, k) == Some(
            (if i + k < len {
                i + k
            } else {
                i + k - len
            }) as usize,
        ),
    decreases k,
{
    if k > 0 {
        lemma_iterate_next_sel_value(i, len, (k - 1) as nat);
    }
}

/// Wraparound: stepping the selection forward once per result brings it
/// back to where it began, for any non-empty result list.
pub proof fn lemma_selection_wraparound(i: usize, len: nat)
    requires
        i < len <= usize::MAX,
    ensures
        iterate_next_sel(Some(i), len, len) == Some(i),
{
    lemma_iterate_next_sel_value(i, len, len);
}

/// The scroll floor: scrolling up any number of times from the top leaves
/// the offset at zero, and it can never go below zero.
pub proof fn lemma_scroll_floor(k: nat)
    ensures
        iterate_scroll_up(0u16, k) == 0u16,
    decreases k,
{
    if k > 0 {
        lemma_scroll_floor((k - 1) as nat);
    }
}

} // verus!
