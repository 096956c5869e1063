//! The status screen: one background read query for the snapshot, a
//! separate background mutation (stage/unstage) whose completion pulse
//! triggers a fresh read, and a flat display list of section headers and
//! entries.

use vstd::prelude::*;
use crate::channel::{try_recv, unbounded_pair};
use crate::git::diff::sat_usize;
use crate::git::error::GitError;
use crate::git::repository::Repository;
use crate::git::status::{short_code_spec, Status, StatusEntry};
use crate::strutil::{dec_seq, dec_string};
use crate::text::{Color, StyledLine, TextStyle};
use crate::views::view::{sel_next_spec, sel_page_down_spec, sel_page_up_spec, sel_prev_spec,
    sel_next, sel_page_down, sel_page_up, sel_prev, Action, Key, KeyPress, ViewType};
use tokio::sync::mpsc::{UnboundedReceiver, UnboundedSender};

verus! {

/// Section in the status view.
#[derive(Debug, Clone, Copy, PartialEq, Eq, Structural)]
pub enum Section {
    Staged,
    Unstaged,
    Untracked,
    Conflicted,
}

pub open spec fn section_title_spec(s: Section) -> Seq<char> {
    match s {
        Section::Staged => "Changes to be committed"@,
        Section::Unstaged => "Changes not staged for commit"@,
        Section::Untracked => "Untracked files"@,
        Section::Conflicted => "Conflicted files"@,
    }
}

pub open spec fn section_color_spec(s: Section) -> Color {
    match s {
        Section::Staged => Color::Green,
        Section::Unstaged => Color::Yellow,
        Section::Untracked => Color::Red,
        Section::Conflicted => Color::Magenta,
    }
}

impl Section {
    /// The heading shown above the section.
    pub fn title(&self) -> (r: &'static str)
        ensures
            r@ == section_title_spec(*self),
    {
        match self {
            Section::Staged => "Changes to be committed",
            Section::Unstaged => "Changes not staged for commit",
            Section::Untracked => "Untracked files",
            Section::Conflicted => "Conflicted files",
        }
    }

    /// The color the section is drawn in.
    pub fn color(&self) -> (r: Color)
        ensures
            r == section_color_spec(*self),
    {
        match self {
            Section::Staged => Color::Green,
            Section::Unstaged => Color::Yellow,
            Section::Untracked => Color::Red,
            Section::Conflicted => Color::Magenta,
        }
    }
}

/// Display item in the status view: a section header or one entry.
#[derive(Debug, PartialEq)]
pub struct DisplayItem {
    pub section: Section,
    pub entry: Option<StatusEntry>,
    pub is_header: bool,
}

impl DisplayItem {
    /// A section header row.
    pub fn header(section: Section) -> (r: Self)
        ensures
            r == (DisplayItem { section, entry: None, is_header: true }),
    {
        DisplayItem { section, entry: None, is_header: true }
    }

    /// An entry row in a section.
    pub fn entry(section: Section, entry: StatusEntry) -> (r: Self)
        ensures
            r == (DisplayItem { section, entry: Some(entry), is_header: false }),
    {
        DisplayItem { section, entry: Some(entry), is_header: false }
    }
}

impl Clone for DisplayItem {
    fn clone(&self) -> (r: Self)
        ensures
            r == *self,
    {
        DisplayItem {
            section: self.section,
            entry: match &self.entry {
                Some(e) => Some(e.clone()),
                None => None,
            },
            is_header: self.is_header,
        }
    }
}

/// The rows one section contributes: nothing when empty, else a header
/// followed by its entries in order.
pub open spec fn section_items(section: Section, entries: Seq<StatusEntry>) -> Seq<DisplayItem> {
    if entries.len() == 0 {
        Seq::empty()
    } else {
        seq![DisplayItem { section, entry: None, is_header: true }] + entries.map_values(
            |e: StatusEntry| DisplayItem { section, entry: Some(e), is_header: false },
        )
    }
}

/// The whole display list for a snapshot: staged, unstaged, untracked,
/// conflicted, each section present only when non-empty.
pub open spec fn items_spec(st: Status) -> Seq<DisplayItem> {
    section_items(Section::Staged, st.staged@) + section_items(Section::Unstaged, st.unstaged@)
        + section_items(Section::Untracked, st.untracked@) + section_items(
        Section::Conflicted,
        st.conflicted@,
    )
}

/// A stage or unstage of one path, for the background side to run; its
/// completion is signalled through the paired pulse channel.
#[derive(Debug)]
pub struct MutationRequest {
    pub repo: Repository,
    pub path: String,
    pub stage: bool,
}

/// Status view showing working directory changes.
#[derive(Debug)]
pub struct StatusView {
    pub repo: Repository,
    pub status: Option<Status>,
    pub items: Vec<DisplayItem>,
    pub selected: Option<usize>,
    pub loading: bool,
    pub error: Option<String>,
    pub receiver: Option<UnboundedReceiver<Result<Status, GitError>>>,
    pub pending_load: Option<(Repository, UnboundedSender<Result<Status, GitError>>)>,
    pub refresh_trigger: Option<UnboundedReceiver<()>>,
    pub pending_mutation: Option<(MutationRequest, UnboundedSender<()>)>,
}

/// The state after a fresh read query is started: loading, a live
/// receiver, and the request left for the shell.
pub open spec fn load_started(pre: StatusView, post: StatusView) -> bool {
    &&& post == (StatusView {
        loading: true,
        receiver: post.receiver,
        pending_load: post.pending_load,
        ..pre
    })
    &&& post.receiver is Some
    &&& match post.pending_load {
        Some(p) => p.0 == pre.repo,
        None => false,
    }
}

/// The state after the refresh pulse is consumed: the trigger is dropped
/// and a fresh read query starts.
pub open spec fn refreshed(pre: StatusView, post: StatusView) -> bool {
    &&& pre.refresh_trigger is Some
    &&& post == (StatusView {
        loading: true,
        receiver: post.receiver,
        pending_load: post.pending_load,
        refresh_trigger: None,
        ..pre
    })
    &&& post.receiver is Some
    &&& match post.pending_load {
        Some(p) => p.0 == pre.repo,
        None => false,
    }
}

/// The item the selection rests on, if it points at one.
pub open spec fn selected_item_spec(v: StatusView) -> Option<DisplayItem> {
    match v.selected {
        Some(i) => if i < v.items@.len() {
            Some(v.items@[i as int])
        } else {
            None
        },
        None => None,
    }
}

/// No result was ready: only the channels may have moved. An unconsumed
/// refresh trigger stays installed.
pub open spec fn polled_empty(pre: StatusView, post: StatusView) -> bool {
    &&& post.status == pre.status
    &&& post.items == pre.items
    &&& post.selected == pre.selected
    &&& post.loading == pre.loading
    &&& post.error == pre.error
    &&& post.pending_load == pre.pending_load
    &&& (post.refresh_trigger is Some) == (pre.refresh_trigger is Some)
}

/// A snapshot arrived: loading clears, the snapshot is kept, and the
/// display list is rebuilt from it; an empty selection re-anchors to the
/// first row.
pub open spec fn got_status(pre: StatusView, post: StatusView) -> bool {
    &&& post.loading == false
    &&& post.error == pre.error
    &&& post.pending_load == pre.pending_load
    &&& match post.status {
        Some(st) => post.items@ == items_spec(st),
        None => false,
    }
    &&& (post.items@.len() > 0 && pre.selected is None ==> post.selected == Some(0usize))
    &&& (!(post.items@.len() > 0 && pre.selected is None) ==> post.selected == pre.selected)
    &&& (post.refresh_trigger is Some) == (pre.refresh_trigger is Some)
}

/// The query failed: loading clears and the message is kept for display.
/// An unconsumed refresh trigger stays installed.
pub open spec fn got_error(pre: StatusView, post: StatusView) -> bool {
    &&& post.loading == false
    &&& post.status == pre.status
    &&& post.items == pre.items
    &&& post.selected == pre.selected
    &&& post.error is Some
    &&& post.pending_load == pre.pending_load
    &&& (post.refresh_trigger is Some) == (pre.refresh_trigger is Some)
}

/// What one update step may do: a no-op before any query or mutation
/// was started; otherwise a consumed refresh pulse (starting a fresh
/// read), an empty poll, an arrived snapshot, or an arrived error.
pub open spec fn status_updated(pre: StatusView, post: StatusView) -> bool {
    &&& ((pre.receiver is None && pre.refresh_trigger is None) ==> post == pre)
    &&& post.repo == pre.repo
    &&& post.pending_mutation == pre.pending_mutation
    &&& ({
        ||| refreshed(pre, post)
        ||| polled_empty(pre, post)
        ||| got_status(pre, post)
        ||| got_error(pre, post)
    })
}

/// What activation does: starts the first read when no snapshot is
/// present and nothing is in flight, else changes nothing.
pub open spec fn status_activated(pre: StatusView, post: StatusView) -> bool {
    &&& ((pre.status is None && !pre.loading) ==> load_started(pre, post))
    &&& (!(pre.status is None && !pre.loading) ==> post == pre)
}

impl StatusView {
    /// A fresh status view over one repository.
    pub fn new(repo: Repository) -> (r: Self)
        ensures
            r.repo == repo,
            r.status is None,
            r.items@.len() == 0,
            r.selected == Some(0usize),
            r.loading == false,
            r.error is None,
            r.receiver is None,
            r.pending_load is None,
            r.refresh_trigger is None,
            r.pending_mutation is None,
    {
        StatusView {
            repo,
            status: None,
            items: Vec::new(),
            selected: Some(0),
            loading: false,
            error: None,
            receiver: None,
            pending_load: None,
            refresh_trigger: None,
            pending_mutation: None,
        }
    }

    /// Starts one status read: opens a fresh channel, keeps the receiving
    /// end, and leaves the request with the sending end for the shell.
    /// Any earlier channel is abandoned.
    pub fn start_loading(&mut self)
        ensures
            load_started(*old(self), *final(self)),
    {
        let (tx, rx) = unbounded_pair();
        self.receiver = Some(rx);
        self.loading = true;
        self.pending_load = Some((self.repo.clone(), tx));
    }

    /// Hands out the pending read query, if one was started and not yet
    /// taken.
    pub fn take_pending_load(&mut self) -> (r: Option<
        (Repository, UnboundedSender<Result<Status, GitError>>),
    >)
        ensures
            *final(self) == (StatusView { pending_load: None, ..*old(self) }),
            r == old(self).pending_load,
    {
        let mut p: Option<(Repository, UnboundedSender<Result<Status, GitError>>)> = None;
        core::mem::swap(&mut p, &mut self.pending_load);
        p
    }

    /// Hands out the pending mutation, if one was requested and not yet
    /// taken.
    pub fn take_pending_mutation(&mut self) -> (r: Option<(MutationRequest, UnboundedSender<()>)>)
        ensures
            *final(self) == (StatusView { pending_mutation: None, ..*old(self) }),
            r == old(self).pending_mutation,
    {
        let mut p: Option<(MutationRequest, UnboundedSender<()>)> = None;
        core::mem::swap(&mut p, &mut self.pending_mutation);
        p
    }

    /// Rebuilds the display list from the current snapshot.
    fn build_items(&mut self)
        ensures
            match final(self).status {
                Some(st) => final(self).items@ == items_spec(st),
                None => final(self).items@.len() == 0,
            },
            final(self).status == old(self).status,
            (final(self).items@.len() > 0 && old(self).selected is None) ==> final(self).selected
                == Some(0usize),
            (!(final(self).items@.len() > 0 && old(self).selected is None))
                ==> final(self).selected == old(self).selected,
            *final(self) == (StatusView {
                items: final(self).items,
                selected: final(self).selected,
                ..*old(self)
            }),
    {
        let mut items: Vec<DisplayItem> = Vec::new();
        match &self.status {
            Some(st) => {
                push_section(&mut items, Section::Staged, &st.staged);
                push_section(&mut items, Section::Unstaged, &st.unstaged);
                push_section(&mut items, Section::Untracked, &st.untracked);
                push_section(&mut items, Section::Conflicted, &st.conflicted);
                proof {
                    assert(items@ =~= items_spec(*st));
                }
            },
            None => {},
        }
        self.items = items;
        if self.items.len() > 0 && self.selected.is_none() {
            self.selected = Some(0);
        }
    }

    /// The item the selection rests on, if it points at one.
    pub fn selected_item(&self) -> (r: Option<&DisplayItem>)
        ensures
            match r {
                Some(item) => selected_item_spec(*self) == Some(*item),
                None => selected_item_spec(*self) is None,
            },
    {
        match self.selected {
            Some(i) => {
                if i < self.items.len() {
                    Some(&self.items[i])
                } else {
                    None
                }
            },
            None => None,
        }
    }

    /// Per-frame update: first a pending refresh pulse (which starts a
    /// fresh read), else one non-blocking poll of the read channel.
    /// Before any query or mutation was started this is a no-op.
    pub fn update(&mut self)
        ensures
            status_updated(*old(self), *final(self)),
    {
        let pulse = match &mut self.refresh_trigger {
            Some(trigger) => try_recv(trigger),
            None => None,
        };
        match pulse {
            Some(_) => {
                self.refresh_trigger = None;
                self.start_loading();
                return ;
            },
            None => {},
        }
        let msg = match &mut self.receiver {
            Some(rx) => try_recv(rx),
            None => {
                return ;
            },
        };
        match msg {
            Some(result) => {
                self.loading = false;
                match result {
                    Ok(status) => {
                        self.status = Some(status);
                        self.build_items();
                    },
                    Err(e) => {
                        self.error = Some(
                            String::from_str("Failed to load status: ").concat(
                                e.message().as_str(),
                            ),
                        );
                    },
                }
            },
            None => {},
        }
    }

    /// Handles one key press; see `status_key_spec`.
    pub fn handle_key(&mut self, key: KeyPress) -> (r: Action)
        ensures
            status_key_spec(*old(self), key, *final(self), r),
    {
        match key.code {
            Key::Char(c) => {
                if c == 'q' {
                    Action::Quit
                } else if c == 'j' {
                    self.selected = Some(sel_next(self.selected, self.items.len()));
                    Action::NoOp
                } else if c == 'k' {
                    self.selected = Some(sel_prev(self.selected));
                    Action::NoOp
                } else if c == 'g' {
                    if self.items.len() > 0 {
                        self.selected = Some(0);
                    }
                    Action::NoOp
                } else if c == 'G' {
                    let len = self.items.len();
                    if len > 0 {
                        self.selected = Some(len - 1);
                    }
                    Action::NoOp
                } else if c == 'r' {
                    self.start_loading();
                    Action::NoOp
                } else if c == 'u' {
                    self.request_mutation();
                    Action::NoOp
                } else if c == '?' {
                    Action::PushView(ViewType::Help)
                } else {
                    Action::NoOp
                }
            },
            Key::Down => {
                self.selected = Some(sel_next(self.selected, self.items.len()));
                Action::NoOp
            },
            Key::Up => {
                self.selected = Some(sel_prev(self.selected));
                Action::NoOp
            },
            Key::PageUp => {
                self.selected = Some(sel_page_up(self.selected, 20));
                Action::NoOp
            },
            Key::PageDown => {
                self.selected = Some(sel_page_down(self.selected, 20, self.items.len()));
                Action::NoOp
            },
            Key::Enter => self.open_diff_action(),
            _ => Action::NoOp,
        }
    }

    /// The action for Enter: open the right diff for the selected entry.
    fn open_diff_action(&mut self) -> (r: Action)
        ensures
            *final(self) == *old(self),
            r == enter_action_spec(*old(self)),
    {
        match self.selected {
            Some(i) => {
                if i < self.items.len() {
                    let item = &self.items[i];
                    if !item.is_header {
                        match &item.entry {
                            Some(entry) => {
                                let path = entry.path.clone();
                                match item.section {
                                    Section::Staged => Action::OpenStagedDiff {
                                        repo: self.repo.clone(),
                                        path,
                                    },
                                    Section::Unstaged => Action::OpenUnstagedDiff {
                                        repo: self.repo.clone(),
                                        path,
                                    },
                                    Section::Untracked => Action::OpenUnstagedDiff {
                                        repo: self.repo.clone(),
                                        path,
                                    },
                                    Section::Conflicted => Action::OpenUnstagedDiff {
                                        repo: self.repo.clone(),
                                        path,
                                    },
                                }
                            },
                            None => Action::NoOp,
                        }
                    } else {
                        Action::NoOp
                    }
                } else {
                    Action::NoOp
                }
            },
            None => Action::NoOp,
        }
    }

    /// For the selected entry, sets up the stage/unstage round trip: a
    /// fresh pulse channel is kept as the refresh trigger, any old error
    /// is cleared, and the mutation request is left for the shell. A
    /// header or empty selection changes nothing.
    fn request_mutation(&mut self)
        ensures
            mutation_spec(*old(self), *final(self)),
    {
        match self.selected {
            Some(i) => {
                if i < self.items.len() {
                    let is_header = self.items[i].is_header;
                    if !is_header {
                        let has_entry = match &self.items[i].entry {
                            Some(_) => true,
                            None => false,
                        };
                        if has_entry {
                            let entry_path = match &self.items[i].entry {
                                Some(entry) => entry.path.clone(),
                                None => String::new(),
                            };
                            let should_stage = matches!(
                                self.items[i].section,
                                Section::Unstaged | Section::Untracked
                            );
                            let (tx, rx) = unbounded_pair();
                            self.refresh_trigger = Some(rx);
                            self.error = None;
                            let request = MutationRequest {
                                repo: self.repo.clone(),
                                path: entry_path,
                                stage: should_stage,
                            };
                            self.pending_mutation = Some((request, tx));
                        }
                    }
                }
            },
            None => {},
        }
    }

    /// One display row: a section header in the section's bold color, an
    /// entry as its short status code and path, or a blank row.
    pub fn create_list_item(&self, item: &DisplayItem) -> (r: StyledLine)
        ensures
            item.is_header ==> {
                &&& r.spans@.len() == 2
                &&& r.spans@[0].text@ == Seq::<char>::empty()
                &&& r.spans@[1].text@ == section_title_spec(item.section)
                &&& r.spans@[1].style == (TextStyle {
                    fg: Some(section_color_spec(item.section)),
                    bg: None,
                    bold: true,
                })
            },
            !item.is_header ==> match item.entry {
                Some(entry) => {
                    &&& r.spans@.len() == 2
                    &&& r.spans@[0].text@ == "  "@ + short_code_spec(entry.status) + " "@
                    &&& r.spans@[0].style == (TextStyle {
                        fg: Some(section_color_spec(item.section)),
                        bg: None,
                        bold: false,
                    })
                    &&& r.spans@[1].text@ == entry.path@
                    &&& r.spans@[1].style == (TextStyle {
                        fg: Some(Color::White),
                        bg: None,
                        bold: false,
                    })
                },
                None => r.spans@.len() == 1 && r.spans@[0].text@ == Seq::<char>::empty(),
            },
    {
        if item.is_header {
            let mut line = StyledLine::of(String::new(), TextStyle::plain());
            line.push_span(
                String::from_str(item.section.title()),
                TextStyle::fg_bold(item.section.color()),
            );
            line
        } else {
            match &item.entry {
                Some(entry) => {
                    let code = String::from_str("  ").concat(entry.status.short_code()).concat(
                        " ",
                    );
                    let mut line = StyledLine::of(code, TextStyle::fg(item.section.color()));
                    line.push_span(entry.path.clone(), TextStyle::fg(Color::White));
                    line
                },
                None => StyledLine::of(String::new(), TextStyle::plain()),
            }
        }
    }

    /// The heading over the list: the total count of changes, "No
    /// changes", or just the view name before the first snapshot.
    pub fn title_text(&self) -> (r: String)
        ensures
            match self.status {
                Some(st) => if st.staged@.len() + st.unstaged@.len() + st.untracked@.len()
                    + st.conflicted@.len() > 0 {
                    r@ == "Status - "@ + dec_seq(
                        sat_usize(
                            st.staged@.len() + st.unstaged@.len() + st.untracked@.len()
                                + st.conflicted@.len() as int,
                        ),
                    ) + " changes"@
                } else {
                    r@ == "Status - No changes"@
                },
                None => r@ == "Status"@,
            },
    {
        match &self.status {
            Some(st) => {
                if st.has_changes() {
                    String::from_str("Status - ").concat(
                        dec_string(st.total_count() as u64).as_str(),
                    ).concat(" changes")
                } else {
                    String::from_str("Status - No changes")
                }
            },
            None => String::from_str("Status"),
        }
    }

    /// On activation: if no snapshot is present and no query is in
    /// flight, start one; otherwise leave everything as it is.
    pub fn on_activate(&mut self)
        ensures
            status_activated(*old(self), *final(self)),
    {
        let start = match &self.status {
            Some(_) => false,
            None => !self.loading,
        };
        if start {
            self.start_loading();
        }
    }

    /// The view's title, for the status bar.
    pub fn title(&self) -> (r: &'static str)
        ensures
            r@ == "Status"@,
    {
        "Status"
    }
}

/// Appends one section's rows to the display list.
fn push_section(items: &mut Vec<DisplayItem>, section: Section, entries: &Vec<StatusEntry>)
    ensures
        final(items)@ == old(items)@ + section_items(section, entries@),
{
    if entries.len() == 0 {
        proof {
            assert(items@ =~= old(items)@ + section_items(section, entries@));
        }
        return ;
    }
    items.push(DisplayItem::header(section));
    let ghost mapped = entries@.map_values(
        |e: StatusEntry| DisplayItem { section, entry: Some(e), is_header: false },
    );
    let mut i: usize = 0;
    while i < entries.len()
        invariant
            0 <= i <= entries@.len(),
            mapped == entries@.map_values(
                |e: StatusEntry| DisplayItem { section, entry: Some(e), is_header: false },
            ),
            mapped.len() == entries@.len(),
            items@ == old(items)@ + seq![DisplayItem { section, entry: None, is_header: true }]
                + mapped.take(i as int),
        decreases entries@.len() - i,
    {
        items.push(DisplayItem::entry(section, entries[i].clone()));
        proof {
            assert(mapped[i as int] == (DisplayItem {
                section,
                entry: Some(entries@[i as int]),
                is_header: false,
            }));
            assert(items@ =~= old(items)@ + seq![
                DisplayItem { section, entry: None, is_header: true },
            ] + mapped.take(i + 1));
        }
        i += 1;
    }
    proof {
        assert(mapped.take(mapped.len() as int) =~= mapped);
        assert(items@ =~= old(items)@ + section_items(section, entries@));
    }
}

/// What one key press does to the status view: navigation over the
/// display list, r to refresh, u to stage or unstage the selected entry,
/// Enter to open its diff, q to quit and '?' for help.
pub open spec fn status_key_spec(pre: StatusView, key: KeyPress, post: StatusView, r: Action)
    -> bool {
    match key.code {
        Key::Char(c) => if c == 'q' {
            post == pre && r == Action::Quit
        } else if c == 'j' {
            status_selected(pre, post, sel_next_spec(pre.selected, pre.items@.len() as int)) && r
                == Action::NoOp
        } else if c == 'k' {
            status_selected(pre, post, sel_prev_spec(pre.selected)) && r == Action::NoOp
        } else if c == 'g' {
            (if pre.items@.len() > 0 {
                status_selected(pre, post, 0)
            } else {
                post == pre
            }) && r == Action::NoOp
        } else if c == 'G' {
            (if pre.items@.len() > 0 {
                status_selected(pre, post, (pre.items@.len() - 1) as usize)
            } else {
                post == pre
            }) && r == Action::NoOp
        } else if c == 'r' {
            load_started(pre, post) && r == Action::NoOp
        } else if c == 'u' {
            mutation_spec(pre, post) && r == Action::NoOp
        } else if c == '?' {
            post == pre && r == Action::PushView(ViewType::Help)
        } else {
            post == pre && r == Action::NoOp
        },
        Key::Down => status_selected(pre, post, sel_next_spec(pre.selected, pre.items@.len() as int))
            && r == Action::NoOp,
        Key::Up => status_selected(pre, post, sel_prev_spec(pre.selected)) && r == Action::NoOp,
        Key::PageUp => status_selected(pre, post, sel_page_up_spec(pre.selected, 20)) && r
            == Action::NoOp,
        Key::PageDown => status_selected(
            pre,
            post,
            sel_page_down_spec(pre.selected, 20, pre.items@.len() as int),
        ) && r == Action::NoOp,
        Key::Enter => post == pre && r == enter_action_spec(pre),
        _ => post == pre && r == Action::NoOp,
    }
}

/// Only the selection moved.
pub open spec fn status_selected(pre: StatusView, post: StatusView, idx: usize) -> bool {
    post == (StatusView { selected: Some(idx), ..pre })
}

/// The action Enter produces: the staged diff of a selected staged
/// entry, the unstaged diff of any other selected entry, nothing for a
/// header or an empty selection.
pub open spec fn enter_action_spec(pre: StatusView) -> Action {
    match pre.selected {
        Some(i) => if i < pre.items@.len() {
            let item = pre.items@[i as int];
            if !item.is_header {
                match item.entry {
                    Some(entry) => match item.section {
                        Section::Staged => Action::OpenStagedDiff {
                            repo: pre.repo,
                            path: entry.path,
                        },
                        Section::Unstaged => Action::OpenUnstagedDiff {
                            repo: pre.repo,
                            path: entry.path,
                        },
                        Section::Untracked => Action::OpenUnstagedDiff {
                            repo: pre.repo,
                            path: entry.path,
                        },
                        Section::Conflicted => Action::OpenUnstagedDiff {
                            repo: pre.repo,
                            path: entry.path,
                        },
                    },
                    None => Action::NoOp,
                }
            } else {
                Action::NoOp
            }
        } else {
            Action::NoOp
        },
        None => Action::NoOp,
    }
}

/// What the stage/unstage request does: with an entry selected, a fresh
/// refresh trigger is installed, the error field clears, and the request
/// (stage for unstaged or untracked entries, unstage otherwise) is left
/// for the shell; with a header or no selection, nothing changes.
pub open spec fn mutation_spec(pre: StatusView, post: StatusView) -> bool {
    match pre.selected {
        Some(i) => if i < pre.items@.len() {
            let item = pre.items@[i as int];
            if !item.is_header {
                match item.entry {
                    Some(entry) => {
                        &&& post == (StatusView {
                            refresh_trigger: post.refresh_trigger,
                            error: None,
                            pending_mutation: post.pending_mutation,
                            ..pre
                        })
                        &&& post.refresh_trigger is Some
                        &&& match post.pending_mutation {
                            Some(p) => {
                                &&& p.0.repo == pre.repo
                                &&& p.0.path == entry.path
                                &&& p.0.stage == (item.section == Section::Unstaged
                                    || item.section == Section::Untracked)
                            },
                            None => false,
                        }
                    },
                    None => post == pre,
                }
            } else {
                post == pre
            }
        } else {
            post == pre
        },
        None => post == pre,
    }
}

} // verus!
