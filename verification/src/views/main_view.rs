//! The history screen: streams commits in through the channel bridge,
//! supports an interactive case-insensitive search filter, and keeps a
//! selection over whichever sequence (full or filtered) is displayed.

use vstd::prelude::*;
use crate::channel::{try_recv, unbounded_pair};
use crate::git::commit::{relative_date_spec, Commit};
use crate::git::repository::Repository;
use crate::git::walker::CommitWalker;
use crate::strutil::{contains_seq, contains_str, dec_seq, dec_string, lower_of, lower_str,
    pop_char, push_char};
use crate::views::view::{sel_next_spec, sel_page_down_spec, sel_page_up_spec, sel_prev_spec,
    sel_next, sel_page_down, sel_page_up, sel_prev, Action, Key, KeyPress, ViewType};
use tokio::sync::mpsc::{UnboundedReceiver, UnboundedSender};

verus! {

/// Search mode state: whether keystrokes currently edit the query.
#[derive(Debug, Clone, Copy, PartialEq, Eq, Structural)]
pub enum SearchMode {
    Inactive,
    Active,
}

/// One row of the history table, ready for display.
#[derive(Debug, PartialEq)]
pub struct CommitRow {
    pub hash: String,
    pub date: String,
    pub author: String,
    pub refs: String,
    pub message: String,
}

/// Whether a commit matches a lowercased query: by summary, author or
/// short id, case-insensitively.
pub open spec fn commit_matches(c: Commit, ql: Seq<char>) -> bool {
    ||| contains_seq(lower_of(c.summary@), ql)
    ||| contains_seq(lower_of(c.author@), ql)
    ||| contains_seq(lower_of(c.short_id@), ql)
}

/// The indices, in increasing order, of the commits that match a
/// lowercased query.
pub open spec fn filtered_indices(cs: Seq<Commit>, ql: Seq<char>) -> Seq<usize>
    decreases cs.len(),
{
    if cs.len() == 0 {
        Seq::empty()
    } else {
        filtered_indices(cs.drop_last(), ql) + (if commit_matches(cs.last(), ql) {
            seq![(cs.len() - 1) as usize]
        } else {
            Seq::empty()
        })
    }
}

/// The reference badge of a row: the ref names joined with ", ".
pub open spec fn join_refs(refs: Seq<String>) -> Seq<char>
    decreases refs.len(),
{
    if refs.len() == 0 {
        Seq::empty()
    } else if refs.len() == 1 {
        refs[0]@
    } else {
        join_refs(refs.drop_last()) + ", "@ + refs.last()@
    }
}

/// The badge text: empty without refs, else the joined names in brackets.
pub open spec fn refs_badge_spec(refs: Seq<String>) -> Seq<char> {
    if refs.len() == 0 {
        Seq::<char>::empty()
    } else {
        " ["@ + join_refs(refs) + "]"@
    }
}

/// Main view showing commit history.
#[derive(Debug)]
pub struct MainView {
    pub repo: Repository,
    pub commits: Vec<Commit>,
    /// Indices into `commits` that match the current search query.
    pub filtered_commits: Vec<usize>,
    pub selected: Option<usize>,
    pub loading: bool,
    pub error: Option<String>,
    pub receiver: Option<UnboundedReceiver<Vec<Commit>>>,
    pub pending: Option<(CommitWalker, UnboundedSender<Vec<Commit>>)>,
    pub search_mode: SearchMode,
    pub search_query: String,
}

/// A filter is applied whenever the query is non-empty, whether the query
/// is still being typed or has been committed with Enter.
pub open spec fn is_searching_spec(v: MainView) -> bool {
    v.search_query@.len() > 0
}

/// The length of whichever sequence is displayed.
pub open spec fn nav_len_spec(v: MainView) -> int {
    if is_searching_spec(v) {
        v.filtered_commits@.len() as int
    } else {
        v.commits@.len() as int
    }
}

/// The commit displayed on row `i` of whichever sequence is shown, if
/// that row points at one.
pub open spec fn displayed_at_spec(v: MainView, i: int) -> Option<Commit> {
    if is_searching_spec(v) {
        if 0 <= i < v.filtered_commits@.len() && (v.filtered_commits@[i] as int)
            < v.commits@.len() {
            Some(v.commits@[v.filtered_commits@[i] as int])
        } else {
            None
        }
    } else {
        if 0 <= i < v.commits@.len() {
            Some(v.commits@[i])
        } else {
            None
        }
    }
}

/// The commit the selection rests on, if it points at one.
pub open spec fn selected_commit_spec(v: MainView) -> Option<Commit> {
    match v.selected {
        None => None,
        Some(i) => displayed_at_spec(v, i as int),
    }
}

/// The state after the filter is recomputed for query `q` over the same
/// commits: the filtered indices are exactly those matching `q`, and a
/// non-empty result re-anchors the selection to its first row.
pub open spec fn filtered_state(pre: MainView, post: MainView, q: Seq<char>) -> bool {
    &&& post.filtered_commits@ == filtered_indices(pre.commits@, lower_of(q))
    &&& (post.filtered_commits@.len() > 0 ==> post.selected == Some(0usize))
    &&& (post.filtered_commits@.len() == 0 ==> post.selected == pre.selected)
    &&& post == (MainView {
        filtered_commits: post.filtered_commits,
        selected: post.selected,
        search_query: post.search_query,
        ..pre
    })
}

/// The state after search mode is entered: empty query, empty filter.
pub open spec fn entered_search(pre: MainView, post: MainView) -> bool {
    &&& post.search_query@.len() == 0
    &&& post.filtered_commits@.len() == 0
    &&& post == (MainView {
        search_mode: SearchMode::Active,
        search_query: post.search_query,
        filtered_commits: post.filtered_commits,
        ..pre
    })
}

/// The state after the search is cleared: empty query and filter, the
/// selection re-anchored to the top.
pub open spec fn exited_search(pre: MainView, post: MainView) -> bool {
    &&& post.search_query@.len() == 0
    &&& post.filtered_commits@.len() == 0
    &&& post == (MainView {
        search_mode: SearchMode::Inactive,
        search_query: post.search_query,
        filtered_commits: post.filtered_commits,
        selected: Some(0usize),
        ..pre
    })
}

/// The state after one character is appended to the query and the filter
/// is recomputed.
pub open spec fn added_char(pre: MainView, post: MainView, c: char) -> bool {
    &&& post.search_query@ == pre.search_query@.push(c)
    &&& filtered_state(pre, post, pre.search_query@.push(c))
}

/// The state after the last query character is removed and the filter is
/// recomputed. An already-empty query stays empty, and an emptied query
/// empties the filter.
pub open spec fn removed_char(pre: MainView, post: MainView) -> bool {
    let q = if pre.search_query@.len() > 0 {
        pre.search_query@.drop_last()
    } else {
        pre.search_query@
    };
    &&& post.search_query@ == q
    &&& if q.len() == 0 {
        &&& post.filtered_commits@.len() == 0
        &&& post == (MainView {
            search_query: post.search_query,
            filtered_commits: post.filtered_commits,
            ..pre
        })
    } else {
        filtered_state(pre, post, q)
    }
}

/// Only the selection moved.
pub open spec fn main_selected(pre: MainView, post: MainView, idx: usize) -> bool {
    post == (MainView { selected: Some(idx), ..pre })
}

/// What one key press does to the history view. While the query is being
/// typed, keys edit it; otherwise keys navigate, open other views, or
/// quit.
pub open spec fn main_key_spec(pre: MainView, key: KeyPress, post: MainView, r: Action) -> bool {
    if pre.search_mode == SearchMode::Active {
        match key.code {
            Key::Esc => exited_search(pre, post) && r == Action::NoOp,
            Key::Enter => post == (MainView { search_mode: SearchMode::Inactive, ..pre }) && r
                == Action::NoOp,
            Key::Backspace => removed_char(pre, post) && r == Action::NoOp,
            Key::Char(c) => added_char(pre, post, c) && r == Action::NoOp,
            _ => post == pre && r == Action::NoOp,
        }
    } else {
        match key.code {
            Key::Char(c) => if c == 'q' {
                post == pre && r == Action::Quit
            } else if c == '/' {
                entered_search(pre, post) && r == Action::NoOp
            } else if c == 'j' {
                main_selected(pre, post, sel_next_spec(pre.selected, nav_len_spec(pre))) && r
                    == Action::NoOp
            } else if c == 'k' {
                main_selected(pre, post, sel_prev_spec(pre.selected)) && r == Action::NoOp
            } else if c == 'g' {
                main_selected(pre, post, 0) && r == Action::NoOp
            } else if c == 'G' {
                if nav_len_spec(pre) > 0 {
                    main_selected(pre, post, (nav_len_spec(pre) - 1) as usize) && r
                        == Action::NoOp
                } else {
                    post == pre && r == Action::NoOp
                }
            } else if c == 's' {
                post == pre && r == Action::PushView(ViewType::Status)
            } else if c == '?' {
                post == pre && r == Action::PushView(ViewType::Help)
            } else {
                post == pre && r == Action::NoOp
            },
            Key::Down => main_selected(pre, post, sel_next_spec(pre.selected, nav_len_spec(pre)))
                && r == Action::NoOp,
            Key::Up => main_selected(pre, post, sel_prev_spec(pre.selected)) && r == Action::NoOp,
            Key::PageUp => main_selected(pre, post, sel_page_up_spec(pre.selected, 20)) && r
                == Action::NoOp,
            Key::PageDown => main_selected(
                pre,
                post,
                sel_page_down_spec(pre.selected, 20, nav_len_spec(pre)),
            ) && r == Action::NoOp,
            Key::Esc => if is_searching_spec(pre) {
                exited_search(pre, post) && r == Action::NoOp
            } else {
                post == pre && r == Action::NoOp
            },
            Key::Enter => match selected_commit_spec(pre) {
                Some(c) => post == pre && r == (Action::OpenDiff {
                    repo: pre.repo,
                    commit_id: c.id,
                    summary: c.summary,
                }),
                None => post == pre && r == Action::NoOp,
            },
            _ => post == pre && r == Action::NoOp,
        }
    }
}

/// What one update step may do: a no-op before any load was started,
/// and otherwise only an extension of the commit sequence by arrived
/// chunks, in arrival order.
pub open spec fn main_updated(pre: MainView, post: MainView) -> bool {
    &&& (pre.receiver is None ==> post == pre)
    &&& pre.commits@.is_prefix_of(post.commits@)
    &&& post == (MainView { commits: post.commits, receiver: post.receiver, ..pre })
}

/// What activation does: starts the first load when nothing is loaded
/// and nothing is in flight, else changes nothing.
pub open spec fn main_activated(pre: MainView, post: MainView) -> bool {
    &&& ((pre.commits@.len() == 0 && !pre.loading) ==> {
        &&& post == (MainView {
            loading: true,
            receiver: post.receiver,
            pending: post.pending,
            ..pre
        })
        &&& post.receiver is Some
        &&& match post.pending {
            Some(p) => p.0.repo == pre.repo && p.0.chunk_size == 50,
            None => false,
        }
    })
    &&& (!(pre.commits@.len() == 0 && !pre.loading) ==> post == pre)
}

impl MainView {
    /// A fresh history view over one repository, with nothing loaded and
    /// the selection anchored to the first row.
    pub fn new(repo: Repository) -> (r: Self)
        ensures
            r.repo == repo,
            r.commits@.len() == 0,
            r.filtered_commits@.len() == 0,
            r.selected == Some(0usize),
            r.loading == false,
            r.error is None,
            r.receiver is None,
            r.pending is None,
            r.search_mode == SearchMode::Inactive,
            r.search_query@.len() == 0,
    {
        MainView {
            repo,
            commits: Vec::new(),
            filtered_commits: Vec::new(),
            selected: Some(0),
            loading: false,
            error: None,
            receiver: None,
            pending: None,
            search_mode: SearchMode::Inactive,
            search_query: String::new(),
        }
    }

    /// Starts the history walk: opens a fresh channel, keeps the
    /// receiving end, and leaves a walker over this repository (chunks of
    /// fifty) with the sending end for the shell to run in the
    /// background. Any earlier channel is abandoned.
    pub fn start_loading(&mut self)
        ensures
            *final(self) == (MainView {
                loading: true,
                receiver: final(self).receiver,
                pending: final(self).pending,
                ..*old(self)
            }),
            final(self).receiver is Some,
            match final(self).pending {
                Some(p) => p.0.repo == old(self).repo && p.0.chunk_size == 50,
                None => false,
            },
    {
        let (tx, rx) = unbounded_pair();
        self.receiver = Some(rx);
        self.loading = true;
        let walker = CommitWalker::new(self.repo.clone()).with_chunk_size(50);
        self.pending = Some((walker, tx));
    }

    /// Hands out the pending walk, if one was started and not yet taken.
    pub fn take_pending(&mut self) -> (r: Option<(CommitWalker, UnboundedSender<Vec<Commit>>)>)
        ensures
            *final(self) == (MainView { pending: None, ..*old(self) }),
            r == old(self).pending,
    {
        let mut p: Option<(CommitWalker, UnboundedSender<Vec<Commit>>)> = None;
        core::mem::swap(&mut p, &mut self.pending);
        p
    }

    /// Per-frame update: drains the commit chunks that have arrived and
    /// appends them, in arrival order, to the commit sequence. Before any
    /// `start_loading` this is a no-op. Nothing else changes.
    pub fn update(&mut self)
        ensures
            main_updated(*old(self), *final(self)),
    {
        if self.receiver.is_none() {
            return ;
        }
        // a bounded number of chunks per frame keeps each frame finite;
        // anything left is picked up next frame
        let mut budget: usize = 1024;
        while budget > 0
            invariant
                old(self).commits@.is_prefix_of(self.commits@),
                *self == (MainView {
                    commits: self.commits,
                    receiver: self.receiver,
                    ..*old(self)
                }),
            decreases budget,
        {
            let msg = match &mut self.receiver {
                Some(rx) => try_recv(rx),
                None => None,
            };
            match msg {
                Some(mut chunk) => {
                    self.commits.append(&mut chunk);
                },
                None => {
                    break ;
                },
            }
            budget -= 1;
        }
    }

    /// Whether a filter is applied (the query is non-empty).
    pub fn is_searching(&self) -> (r: bool)
        ensures
            r == is_searching_spec(*self),
    {
        !self.search_query.as_str().is_empty()
    }

    /// The length of the displayed sequence (filtered or full).
    pub fn displayed_len(&self) -> (r: usize)
        ensures
            r as int == nav_len_spec(*self),
    {
        if self.is_searching() {
            self.filtered_commits.len()
        } else {
            self.commits.len()
        }
    }

    /// The commit displayed on row `i`, if that row points at one.
    pub fn displayed_at(&self, i: usize) -> (r: Option<&Commit>)
        ensures
            match r {
                Some(c) => displayed_at_spec(*self, i as int) == Some(*c),
                None => displayed_at_spec(*self, i as int) is None,
            },
    {
        if self.is_searching() {
            if i < self.filtered_commits.len() {
                let idx = self.filtered_commits[i];
                if idx < self.commits.len() {
                    Some(&self.commits[idx])
                } else {
                    None
                }
            } else {
                None
            }
        } else {
            if i < self.commits.len() {
                Some(&self.commits[i])
            } else {
                None
            }
        }
    }

    /// The commit the selection rests on, if it points at one.
    pub fn selected_commit(&self) -> (r: Option<&Commit>)
        ensures
            match r {
                Some(c) => selected_commit_spec(*self) == Some(*c),
                None => selected_commit_spec(*self) is None,
            },
    {
        match self.selected {
            None => None,
            Some(i) => {
                if self.is_searching() {
                    if i < self.filtered_commits.len() {
                        let idx = self.filtered_commits[i];
                        if idx < self.commits.len() {
                            Some(&self.commits[idx])
                        } else {
                            None
                        }
                    } else {
                        None
                    }
                } else {
                    if i < self.commits.len() {
                        Some(&self.commits[i])
                    } else {
                        None
                    }
                }
            },
        }
    }

    /// Recomputes the filter for the current query over the current
    /// commits; see `filtered_state`.
    fn update_search_filter(&mut self)
        ensures
            old(self).search_query@.len() == 0 ==> {
                &&& final(self).filtered_commits@.len() == 0
                &&& *final(self) == (MainView {
                    filtered_commits: final(self).filtered_commits,
                    ..*old(self)
                })
            },
            final(self).search_query == old(self).search_query,
            old(self).search_query@.len() > 0 ==> filtered_state(
                *old(self),
                *final(self),
                old(self).search_query@,
            ),
    {
        if self.search_query.as_str().is_empty() {
            self.filtered_commits = Vec::new();
            return ;
        }
        let query_l = lower_str(self.search_query.as_str());
        let ghost ql = lower_of(self.search_query@);
        let mut filtered: Vec<usize> = Vec::new();
        let mut i: usize = 0;
        while i < self.commits.len()
            invariant
                0 <= i <= self.commits@.len(),
                query_l@ == ql,
                filtered@ == filtered_indices(self.commits@.take(i as int), ql),
            decreases self.commits@.len() - i,
        {
            let c = &self.commits[i];
            let m = contains_str(lower_str(c.summary.as_str()).as_str(), query_l.as_str())
                || contains_str(lower_str(c.author.as_str()).as_str(), query_l.as_str())
                || contains_str(lower_str(c.short_id.as_str()).as_str(), query_l.as_str());
            if m {
                filtered.push(i);
            }
            proof {
                let t1 = self.commits@.take(i + 1);
                assert(t1.drop_last() =~= self.commits@.take(i as int));
                assert(t1.last() == self.commits@[i as int]);
                assert(filtered@ =~= filtered_indices(t1, ql));
            }
            i += 1;
        }
        proof {
            assert(self.commits@.take(self.commits@.len() as int) =~= self.commits@);
        }
        self.filtered_commits = filtered;
        if !self.filtered_commits.is_empty() {
            self.selected = Some(0);
        }
    }

    /// Enters search mode with an empty query.
    fn enter_search_mode(&mut self)
        ensures
            entered_search(*old(self), *final(self)),
    {
        self.search_mode = SearchMode::Active;
        self.search_query = String::new();
        self.filtered_commits = Vec::new();
    }

    /// Clears the search and returns to the unfiltered view.
    fn exit_search_mode(&mut self)
        ensures
            exited_search(*old(self), *final(self)),
    {
        self.search_mode = SearchMode::Inactive;
        self.search_query = String::new();
        self.filtered_commits = Vec::new();
        self.selected = Some(0);
    }

    /// Appends one character to the query and re-filters.
    fn search_add_char(&mut self, c: char)
        ensures
            added_char(*old(self), *final(self), c),
    {
        push_char(&mut self.search_query, c);
        self.update_search_filter();
    }

    /// Removes the last query character and re-filters.
    fn search_backspace(&mut self)
        ensures
            removed_char(*old(self), *final(self)),
    {
        pop_char(&mut self.search_query);
        self.update_search_filter();
    }

    /// Handles one key press; see `main_key_spec`.
    pub fn handle_key(&mut self, key: KeyPress) -> (r: Action)
        ensures
            main_key_spec(*old(self), key, *final(self), r),
    {
        if matches!(self.search_mode, SearchMode::Active) {
            return match key.code {
                Key::Esc => {
                    self.exit_search_mode();
                    Action::NoOp
                },
                Key::Enter => {
                    self.search_mode = SearchMode::Inactive;
                    Action::NoOp
                },
                Key::Backspace => {
                    self.search_backspace();
                    Action::NoOp
                },
                Key::Char(c) => {
                    self.search_add_char(c);
                    Action::NoOp
                },
                _ => Action::NoOp,
            };
        }
        match key.code {
            Key::Char(c) => {
                if c == 'q' {
                    Action::Quit
                } else if c == '/' {
                    self.enter_search_mode();
                    Action::NoOp
                } else if c == 'j' {
                    self.selected = Some(sel_next(self.selected, self.displayed_len()));
                    Action::NoOp
                } else if c == 'k' {
                    self.selected = Some(sel_prev(self.selected));
                    Action::NoOp
                } else if c == 'g' {
                    self.selected = Some(0);
                    Action::NoOp
                } else if c == 'G' {
                    let len = self.displayed_len();
                    if len > 0 {
                        self.selected = Some(len - 1);
                    }
                    Action::NoOp
                } else if c == 's' {
                    Action::PushView(ViewType::Status)
                } else if c == '?' {
                    Action::PushView(ViewType::Help)
                } else {
                    Action::NoOp
                }
            },
            Key::Down => {
                self.selected = Some(sel_next(self.selected, self.displayed_len()));
                Action::NoOp
            },
            Key::Up => {
                self.selected = Some(sel_prev(self.selected));
                Action::NoOp
            },
            Key::PageUp => {
                self.selected = Some(sel_page_up(self.selected, 20));
                Action::NoOp
            },
            Key::PageDown => {
                self.selected = Some(sel_page_down(self.selected, 20, self.displayed_len()));
                Action::NoOp
            },
            Key::Esc => {
                if self.is_searching() {
                    self.exit_search_mode();
                }
                Action::NoOp
            },
            Key::Enter => {
                match self.selected_commit() {
                    Some(commit) => {
                        let commit_id = commit.id.clone();
                        let summary = commit.summary.clone();
                        Action::OpenDiff { repo: self.repo.clone(), commit_id, summary }
                    },
                    None => Action::NoOp,
                }
            },
            _ => Action::NoOp,
        }
    }

    /// One display row for a commit: short id, age relative to `now_ts`,
    /// author, reference badge, and summary.
    pub fn create_commit_row(&self, commit: &Commit, now_ts: i64) -> (r: CommitRow)
        ensures
            r.hash@ == commit.short_id@,
            r.date@ == relative_date_spec(now_ts - commit.timestamp),
            r.author@ == commit.author@,
            r.refs@ == refs_badge_spec(commit.refs@),
            r.message@ == commit.summary@,
    {
        let refs: String = if commit.refs.len() == 0 {
            String::new()
        } else {
            let mut acc = String::from_str(" [");
            let mut i: usize = 0;
            while i < commit.refs.len()
                invariant
                    0 < commit.refs@.len(),
                    0 <= i <= commit.refs@.len(),
                    acc@ == " ["@ + join_refs(commit.refs@.take(i as int)),
                decreases commit.refs@.len() - i,
            {
                if i > 0 {
                    acc.append(", ");
                }
                acc.append(commit.refs[i].as_str());
                proof {
                    let t1 = commit.refs@.take(i + 1);
                    assert(t1.drop_last() =~= commit.refs@.take(i as int));
                    assert(t1.last() == commit.refs@[i as int]);
                    if i == 0 {
                        assert(join_refs(t1) == commit.refs@[0]@);
                    }
                }
                i += 1;
            }
            proof {
                assert(commit.refs@.take(commit.refs@.len() as int) =~= commit.refs@);
            }
            acc.append("]");
            acc
        };
        CommitRow {
            hash: commit.short_id.clone(),
            date: commit.relative_date(now_ts),
            author: commit.author.clone(),
            refs,
            message: commit.summary.clone(),
        }
    }

    /// The heading over the table: the displayed and total counts while
    /// a filter is applied, the query being typed while search input is
    /// open, else the total count.
    pub fn title_text(&self) -> (r: String)
        ensures
            is_searching_spec(*self) ==> r@ == "Main - "@ + dec_seq(
                self.filtered_commits@.len() as int,
            ) + " / "@ + dec_seq(self.commits@.len() as int) + " commits (filtered)"@,
            (!is_searching_spec(*self) && self.search_mode == SearchMode::Active) ==> r@
                == "Search: "@ + self.search_query@ + "_"@,
            (!is_searching_spec(*self) && self.search_mode != SearchMode::Active) ==> r@
                == "Main - "@ + dec_seq(self.commits@.len() as int) + " commits"@,
    {
        if self.is_searching() {
            String::from_str("Main - ").concat(
                dec_string(self.filtered_commits.len() as u64).as_str(),
            ).concat(" / ").concat(dec_string(self.commits.len() as u64).as_str()).concat(
                " commits (filtered)",
            )
        } else if matches!(self.search_mode, SearchMode::Active) {
            String::from_str("Search: ").concat(self.search_query.as_str()).concat("_")
        } else {
            String::from_str("Main - ").concat(dec_string(self.commits.len() as u64).as_str())
                .concat(" commits")
        }
    }

    /// On activation: if nothing is loaded and no walk is in flight,
    /// start one; otherwise leave everything as it is.
    pub fn on_activate(&mut self)
        ensures
            main_activated(*old(self), *final(self)),
    {
        if self.commits.is_empty() && !self.loading {
            self.start_loading();
        }
    }

    /// The view's title, for the status bar.
    pub fn title(&self) -> (r: &'static str)
        ensures
            r@ == "Main"@,
    {
        "Main"
    }
}

/// Every filtered index points before the end of the commit sequence, at
/// a commit that matches; and there are no more indices than commits.
pub proof fn lemma_filtered_indices_bounds(cs: Seq<Commit>, ql: Seq<char>)
    requires
        cs.len() <= usize::MAX,
    ensures
        filtered_indices(cs, ql).len() <= cs.len(),
        forall|k: int|
            0 <= k < filtered_indices(cs, ql).len() ==> (#[trigger] filtered_indices(cs, ql)[k]
                as int) < cs.len() && commit_matches(cs[filtered_indices(cs, ql)[k] as int], ql),
    decreases cs.len(),
{
    if cs.len() == 0 {
    } else {
        let rest = filtered_indices(cs.drop_last(), ql);
        lemma_filtered_indices_bounds(cs.drop_last(), ql);
        assert forall|k: int|
            0 <= k < filtered_indices(cs, ql).len() implies (#[trigger] filtered_indices(
            cs,
            ql,
        )[k] as int) < cs.len() && commit_matches(cs[filtered_indices(cs, ql)[k] as int], ql) by {
            if k < rest.len() {
                assert(filtered_indices(cs, ql)[k] == rest[k]);
                assert(cs.drop_last()[rest[k] as int] == cs[rest[k] as int]);
            } else {
                assert(commit_matches(cs.last(), ql));
                assert(filtered_indices(cs, ql)[k] == (cs.len() - 1) as usize);
            }
        }
    }
}

/// Filtering a sequence whose commits all match keeps every index: the
/// result is the identity sequence 0, 1, ..., len-1.
pub proof fn lemma_filter_all_matching_identity(cs: Seq<Commit>, ql: Seq<char>)
    requires
        cs.len() <= usize::MAX,
        forall|j: int| 0 <= j < cs.len() ==> commit_matches(#[trigger] cs[j], ql),
    ensures
        filtered_indices(cs, ql) == Seq::new(cs.len(), |k: int| k as usize),
    decreases cs.len(),
{
    if cs.len() == 0 {
        assert(filtered_indices(cs, ql) =~= Seq::new(cs.len(), |k: int| k as usize));
    } else {
        assert(forall|j: int|
            0 <= j < cs.drop_last().len() ==> commit_matches(#[trigger] cs.drop_last()[j], ql));
        lemma_filter_all_matching_identity(cs.drop_last(), ql);
        assert(commit_matches(cs.last(), ql));
        assert(filtered_indices(cs, ql) =~= Seq::new(cs.len(), |k: int| k as usize));
    }
}

/// Re-applying the search filter is a no-op: after the filter has run
/// for a query, running it again with the same query over the same
/// commits yields the same index sequence. The filtered indices are a
/// pure function of the commit sequence and the query alone.
pub proof fn lemma_filter_reapplication(pre: MainView, mid: MainView, post: MainView)
    requires
        filtered_state(pre, mid, pre.search_query@),
        mid.search_query@ == pre.search_query@,
        filtered_state(mid, post, mid.search_query@),
    ensures
        post.filtered_commits@ == mid.filtered_commits@,
{
}

/// The search filter is idempotent: take the commits selected by a
/// filter, filter that selection by the same query, and every row is
/// selected again — the index set is unchanged (it becomes the identity
/// over the selected rows).
pub proof fn lemma_filter_idempotent(cs: Seq<Commit>, ql: Seq<char>)
    requires
        cs.len() <= usize::MAX,
    ensures
        ({
            let idx = filtered_indices(cs, ql);
            let sel = Seq::new(idx.len(), |k: int| cs[idx[k] as int]);
            filtered_indices(sel, ql) == Seq::new(sel.len(), |k: int| k as usize)
        }),
{
    let idx = filtered_indices(cs, ql);
    let sel = Seq::new(idx.len(), |k: int| cs[idx[k] as int]);
    lemma_filtered_indices_bounds(cs, ql);
    assert(forall|j: int| 0 <= j < sel.len() ==> commit_matches(#[trigger] sel[j], ql));
    lemma_filter_all_matching_identity(sel, ql);
}

} // verus!
