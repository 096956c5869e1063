//! The diff screen: orchestrates one background diff query through the
//! channel bridge, renders the resulting model into styled lines, and
//! scrolls over them.

use vstd::prelude::*;
use crate::channel::{try_recv, unbounded_pair};
use crate::config::colors::ColorScheme;
use crate::git::diff::{Diff, DiffFile, DiffHunk, DiffLine, LineType};
use crate::git::error::GitError;
use crate::git::repository::Repository;
use crate::strutil::{dec_seq, dec_string, pad_left, pad_left_spec};
use crate::text::{Color, StyledLine, TextStyle};
use crate::views::view::{scroll_down_spec, scroll_up_spec, window_end_spec, scroll_down_by,
    scroll_up_by, window_end, Action, Key, KeyPress, ViewType};
use tokio::sync::mpsc::{UnboundedReceiver, UnboundedSender};

verus! {

/// What the diff is of.
#[derive(Debug, PartialEq)]
pub enum DiffSource {
    /// A commit's change set against its first parent.
    Commit { id: String, summary: String },
    /// Staged changes for one path.
    StagedFile { path: String },
    /// Unstaged changes for one path.
    UnstagedFile { path: String },
}

impl Clone for DiffSource {
    fn clone(&self) -> (r: Self)
        ensures
            r == *self,
    {
        match self {
            DiffSource::Commit { id, summary } => DiffSource::Commit {
                id: id.clone(),
                summary: summary.clone(),
            },
            DiffSource::StagedFile { path } => DiffSource::StagedFile { path: path.clone() },
            DiffSource::UnstagedFile { path } => DiffSource::UnstagedFile { path: path.clone() },
        }
    }
}

/// A diff query for the background side to run: which repository, and
/// which of the three request shapes.
#[derive(Debug)]
pub struct DiffRequest {
    pub repo: Repository,
    pub source: DiffSource,
}

/// How many lines the header of a rendered diff takes.
pub open spec fn header_count(source: DiffSource) -> int {
    match source {
        DiffSource::Commit { .. } => 2,
        DiffSource::StagedFile { .. } => 1,
        DiffSource::UnstagedFile { .. } => 1,
    }
}

/// How many lines one rendered hunk takes.
pub open spec fn hunk_render_count(h: DiffHunk) -> int {
    1 + h.lines@.len() as int
}

/// How many lines a file's rendered hunks take.
pub open spec fn hunks_render_count(hunks: Seq<DiffHunk>) -> int
    decreases hunks.len(),
{
    if hunks.len() == 0 {
        0
    } else {
        hunks_render_count(hunks.drop_last()) + hunk_render_count(hunks.last())
    }
}

/// How many lines one rendered file takes.
pub open spec fn file_render_count(f: DiffFile) -> int {
    2 + (if f.is_binary {
        2
    } else {
        hunks_render_count(f.hunks@) + 1
    })
}

/// How many lines a sequence of rendered files takes.
pub open spec fn files_render_count(files: Seq<DiffFile>) -> int
    decreases files.len(),
{
    if files.len() == 0 {
        0
    } else {
        files_render_count(files.drop_last()) + file_render_count(files.last())
    }
}

/// How many lines the whole rendered diff takes: header, blank line,
/// files, blank line, summary.
pub open spec fn diff_render_count(source: DiffSource, d: Diff) -> int {
    header_count(source) + 1 + files_render_count(d.files@) + 2
}

/// The one-character gutter prefix of a diff line.
pub open spec fn prefix_spec(t: LineType) -> Seq<char> {
    match t {
        LineType::Addition => "+"@,
        LineType::Deletion => "-"@,
        LineType::Context => " "@,
        LineType::FileHeader => ""@,
        LineType::HunkHeader => ""@,
    }
}

/// A line's content without one trailing newline.
pub open spec fn stripped(content: Seq<char>) -> Seq<char> {
    if content.len() > 0 && content.last() == '\n' {
        content.drop_last()
    } else {
        content
    }
}

/// The line-number gutter text: old and new numbers, each right-aligned
/// to four columns when present.
pub open spec fn lineno_spec(old_ln: Option<u32>, new_ln: Option<u32>) -> Seq<char> {
    match (old_ln, new_ln) {
        (Some(o), Some(n)) => pad_left_spec(dec_seq(o as int), 4) + " "@ + pad_left_spec(
            dec_seq(n as int),
            4,
        ) + " "@,
        (Some(o), None) => pad_left_spec(dec_seq(o as int), 4) + "      "@,
        (None, Some(n)) => "     "@ + pad_left_spec(dec_seq(n as int), 4) + " "@,
        (None, None) => "          "@,
    }
}

/// Diff view showing changes for a commit or file.
#[derive(Debug)]
pub struct DiffView {
    pub repo: Repository,
    pub source: DiffSource,
    pub diff: Option<Diff>,
    pub lines: Vec<StyledLine>,
    pub scroll_offset: usize,
    pub loading: bool,
    pub error: Option<String>,
    pub receiver: Option<UnboundedReceiver<Result<Diff, GitError>>>,
    pub pending: Option<(DiffRequest, UnboundedSender<Result<Diff, GitError>>)>,
    pub colors: ColorScheme,
}

/// The fields a scroll may not touch.
pub open spec fn diff_scrolled_to(pre: DiffView, post: DiffView, offset: int) -> bool {
    post == (DiffView { scroll_offset: offset as usize, ..pre })
}

/// What one key press does to the diff view: q and Esc close it, j/k and
/// the page keys scroll by one and by twenty, g/G jump to the ends, and
/// '?' asks for the help view.
pub open spec fn diff_key_spec(pre: DiffView, key: KeyPress, post: DiffView, r: Action) -> bool {
    let len = pre.lines@.len() as int;
    match key.code {
        Key::Char(c) => if c == 'q' {
            post == pre && r == Action::PopView
        } else if c == 'j' {
            diff_scrolled_to(pre, post, scroll_down_spec(pre.scroll_offset as int, 1, len)) && r
                == Action::NoOp
        } else if c == 'k' {
            diff_scrolled_to(pre, post, scroll_up_spec(pre.scroll_offset as int, 1)) && r
                == Action::NoOp
        } else if c == 'g' {
            diff_scrolled_to(pre, post, 0) && r == Action::NoOp
        } else if c == 'G' {
            diff_scrolled_to(pre, post, if len == 0 {
                0int
            } else {
                len - 1
            }) && r == Action::NoOp
        } else if c == '?' {
            post == pre && r == Action::PushView(ViewType::Help)
        } else {
            post == pre && r == Action::NoOp
        },
        Key::Esc => post == pre && r == Action::PopView,
        Key::Down => diff_scrolled_to(pre, post, scroll_down_spec(pre.scroll_offset as int, 1, len))
            && r == Action::NoOp,
        Key::Up => diff_scrolled_to(pre, post, scroll_up_spec(pre.scroll_offset as int, 1)) && r
            == Action::NoOp,
        Key::PageDown => diff_scrolled_to(
            pre,
            post,
            scroll_down_spec(pre.scroll_offset as int, 20, len),
        ) && r == Action::NoOp,
        Key::PageUp => diff_scrolled_to(pre, post, scroll_up_spec(pre.scroll_offset as int, 20))
            && r == Action::NoOp,
        _ => post == pre && r == Action::NoOp,
    }
}

/// What one update step may do: a no-op before any load was started;
/// otherwise either nothing arrived (only the channel may have moved), a
/// diff arrived (loading clears, the rendered lines replace the old
/// ones), or an error arrived (loading clears, the message is kept).
pub open spec fn diff_updated(pre: DiffView, post: DiffView) -> bool {
    &&& (pre.receiver is None ==> post == pre)
    &&& post.repo == pre.repo
    &&& post.source == pre.source
    &&& post.scroll_offset == pre.scroll_offset
    &&& post.colors == pre.colors
    &&& post.pending == pre.pending
    &&& ({
        ||| (post.diff == pre.diff && post.lines == pre.lines && post.error == pre.error
            && post.loading == pre.loading)
        ||| (post.loading == false && post.error == pre.error && match post.diff {
            Some(d) => post.lines@.len() == diff_render_count(pre.source, d),
            None => false,
        })
        ||| (post.loading == false && post.diff == pre.diff && post.lines == pre.lines
            && post.error is Some)
    })
}

/// What activation does: starts the first load when no diff is present
/// and nothing is in flight, else changes nothing.
pub open spec fn diff_activated(pre: DiffView, post: DiffView) -> bool {
    &&& ((pre.diff is None && !pre.loading) ==> {
        &&& post == (DiffView {
            loading: true,
            receiver: post.receiver,
            pending: post.pending,
            ..pre
        })
        &&& post.receiver is Some
        &&& match post.pending {
            Some(p) => p.0.repo == pre.repo && p.0.source == pre.source,
            None => false,
        }
    })
    &&& (!(pre.diff is None && !pre.loading) ==> post == pre)
}

impl DiffView {
    /// A diff view for one commit's change set.
    pub fn new(repo: Repository, commit_id: String, commit_summary: String, colors: ColorScheme)
        -> (r: Self)
        ensures
            r.repo == repo,
            r.source == (DiffSource::Commit { id: commit_id, summary: commit_summary }),
            r.diff is None,
            r.lines@.len() == 0,
            r.scroll_offset == 0,
            r.loading == false,
            r.error is None,
            r.receiver is None,
            r.pending is None,
            r.colors == colors,
    {
        DiffView {
            repo,
            source: DiffSource::Commit { id: commit_id, summary: commit_summary },
            diff: None,
            lines: Vec::new(),
            scroll_offset: 0,
            loading: false,
            error: None,
            receiver: None,
            pending: None,
            colors,
        }
    }

    /// A diff view for staged changes of one path.
    pub fn new_staged(repo: Repository, path: String, colors: ColorScheme) -> (r: Self)
        ensures
            r.repo == repo,
            r.source == (DiffSource::StagedFile { path }),
            r.diff is None,
            r.lines@.len() == 0,
            r.scroll_offset == 0,
            r.loading == false,
            r.error is None,
            r.receiver is None,
            r.pending is None,
            r.colors == colors,
    {
        DiffView {
            repo,
            source: DiffSource::StagedFile { path },
            diff: None,
            lines: Vec::new(),
            scroll_offset: 0,
            loading: false,
            error: None,
            receiver: None,
            pending: None,
            colors,
        }
    }

    /// A diff view for unstaged changes of one path.
    pub fn new_unstaged(repo: Repository, path: String, colors: ColorScheme) -> (r: Self)
        ensures
            r.repo == repo,
            r.source == (DiffSource::UnstagedFile { path }),
            r.diff is None,
            r.lines@.len() == 0,
            r.scroll_offset == 0,
            r.loading == false,
            r.error is None,
            r.receiver is None,
            r.pending is None,
            r.colors == colors,
    {
        DiffView {
            repo,
            source: DiffSource::UnstagedFile { path },
            diff: None,
            lines: Vec::new(),
            scroll_offset: 0,
            loading: false,
            error: None,
            receiver: None,
            pending: None,
            colors,
        }
    }

    /// Starts one diff query: opens a fresh channel, keeps the receiving
    /// end, and leaves the request with the sending end for the shell to
    /// hand to a background task. Any earlier channel is abandoned.
    pub fn start_loading(&mut self)
        ensures
            *final(self) == (DiffView {
                loading: true,
                receiver: final(self).receiver,
                pending: final(self).pending,
                ..*old(self)
            }),
            final(self).receiver is Some,
            match final(self).pending {
                Some(p) => p.0.repo == old(self).repo && p.0.source == old(self).source,
                None => false,
            },
    {
        let (tx, rx) = unbounded_pair();
        self.receiver = Some(rx);
        self.loading = true;
        let request = DiffRequest { repo: self.repo.clone(), source: self.source.clone() };
        self.pending = Some((request, tx));
    }

    /// Hands out the pending query, if one was started and not yet taken.
    pub fn take_pending(&mut self) -> (r: Option<
        (DiffRequest, UnboundedSender<Result<Diff, GitError>>),
    >)
        ensures
            *final(self) == (DiffView { pending: None, ..*old(self) }),
            r == old(self).pending,
    {
        let mut p: Option<(DiffRequest, UnboundedSender<Result<Diff, GitError>>)> = None;
        core::mem::swap(&mut p, &mut self.pending);
        p
    }

    /// One non-blocking poll of the bridge. Before any query was started
    /// this changes nothing. When a result is ready, the loading flag
    /// clears and either the rendered diff or the error message is kept;
    /// with no result ready, only the channel may have moved.
    pub fn update(&mut self)
        ensures
            diff_updated(*old(self), *final(self)),
    {
        let msg = match &mut self.receiver {
            Some(rx) => try_recv(rx),
            None => {
                return ;
            },
        };
        match msg {
            Some(result) => {
                self.loading = false;
                match result {
                    Ok(diff) => {
                        let lines = self.render_diff_to_lines(&diff);
                        self.lines = lines;
                        self.diff = Some(diff);
                    },
                    Err(e) => {
                        self.error = Some(
                            String::from_str("Failed to load diff: ").concat(e.message().as_str()),
                        );
                    },
                }
            },
            None => {},
        }
    }

    /// Renders a diff model into styled lines: a source header, each
    /// file's lines, and a closing summary.
    pub fn render_diff_to_lines(&self, diff: &Diff) -> (r: Vec<StyledLine>)
        ensures
            r@.len() == diff_render_count(self.source, *diff),
    {
        let mut lines: Vec<StyledLine> = Vec::new();
        match &self.source {
            DiffSource::Commit { id, summary } => {
                lines.push(StyledLine::of(String::from_str("commit ").concat(id.as_str()),
                    TextStyle::fg_bold(self.colors.commit_hash)));
                lines.push(StyledLine::of(summary.clone(), TextStyle::fg(self.colors.modified)));
            },
            DiffSource::StagedFile { path } => {
                let mut line = StyledLine::of(String::from_str("Staged changes: "),
                    TextStyle::fg_bold(self.colors.added));
                line.push_span(path.clone(), TextStyle::fg(self.colors.modified));
                lines.push(line);
            },
            DiffSource::UnstagedFile { path } => {
                let mut line = StyledLine::of(String::from_str("Unstaged changes: "),
                    TextStyle::fg_bold(self.colors.modified));
                line.push_span(path.clone(), TextStyle::fg(self.colors.modified));
                lines.push(line);
            },
        }
        lines.push(StyledLine::of(String::new(), TextStyle::plain()));

        let mut i: usize = 0;
        while i < diff.files.len()
            invariant
                0 <= i <= diff.files@.len(),
                lines@.len() == header_count(self.source) + 1 + files_render_count(
                    diff.files@.take(i as int),
                ),
            decreases diff.files@.len() - i,
        {
            self.render_file_to_lines(&mut lines, &diff.files[i]);
            proof {
                let t1 = diff.files@.take(i + 1);
                assert(t1.drop_last() =~= diff.files@.take(i as int));
                assert(t1.last() == diff.files@[i as int]);
            }
            i += 1;
        }
        proof {
            assert(diff.files@.take(diff.files@.len() as int) =~= diff.files@);
        }

        let (additions, deletions) = diff.total_stats();
        lines.push(StyledLine::of(String::new(), TextStyle::plain()));
        let mut summary_line = StyledLine::of(
            dec_string(diff.files.len() as u64).concat(" file(s) changed, "),
            TextStyle::fg(self.colors.modified),
        );
        summary_line.push_span(String::from_str("+").concat(dec_string(additions as u64).as_str())
            .concat(" "), TextStyle::fg(self.colors.added));
        summary_line.push_span(String::from_str("-").concat(dec_string(deletions as u64).as_str()),
            TextStyle::fg(self.colors.deleted));
        lines.push(summary_line);
        lines
    }

    /// Renders one file: its header and statistics, then either a binary
    /// marker or its hunks, then a blank separator.
    fn render_file_to_lines(&self, lines: &mut Vec<StyledLine>, file: &DiffFile)
        ensures
            final(lines)@.len() == old(lines)@.len() + file_render_count(*file),
    {
        let file_line: String = match (&file.old_path, &file.new_path) {
            (Some(old_p), Some(new_p)) => {
                if !crate::strutil::str_eq(old_p.as_str(), new_p.as_str()) {
                    String::from_str("diff --git a/").concat(old_p.as_str()).concat(" b/").concat(
                        new_p.as_str(),
                    )
                } else {
                    String::from_str("diff --git a/").concat(old_p.as_str()).concat(" b/").concat(
                        old_p.as_str(),
                    )
                }
            },
            (Some(old_p), None) => String::from_str("diff --git a/").concat(old_p.as_str()).concat(
                " (deleted)",
            ),
            (None, Some(new_p)) => String::from_str("diff --git a/").concat(new_p.as_str()).concat(
                " (new)",
            ),
            (None, None) => String::from_str("diff --git (unknown)"),
        };
        lines.push(StyledLine::of(file_line, TextStyle::fg_bold(Color::Cyan)));
        lines.push(StyledLine::of(file.stats_summary(), TextStyle::fg(Color::Cyan)));

        if file.is_binary {
            lines.push(StyledLine::of(String::from_str("Binary file"), TextStyle::fg(
                self.colors.modified,
            )));
            lines.push(StyledLine::of(String::new(), TextStyle::plain()));
            return ;
        }

        let mut j: usize = 0;
        while j < file.hunks.len()
            invariant
                0 <= j <= file.hunks@.len(),
                !file.is_binary,
                lines@.len() == old(lines)@.len() + 2 + hunks_render_count(
                    file.hunks@.take(j as int),
                ),
            decreases file.hunks@.len() - j,
        {
            self.render_hunk_to_lines(lines, &file.hunks[j]);
            proof {
                let t1 = file.hunks@.take(j + 1);
                assert(t1.drop_last() =~= file.hunks@.take(j as int));
                assert(t1.last() == file.hunks@[j as int]);
            }
            j += 1;
        }
        proof {
            assert(file.hunks@.take(file.hunks@.len() as int) =~= file.hunks@);
        }
        lines.push(StyledLine::of(String::new(), TextStyle::plain()));
    }

    /// Renders one hunk: its header, then each line.
    fn render_hunk_to_lines(&self, lines: &mut Vec<StyledLine>, hunk: &DiffHunk)
        ensures
            final(lines)@.len() == old(lines)@.len() + hunk_render_count(*hunk),
    {
        lines.push(StyledLine::of(hunk.header.clone(), TextStyle::fg_bold(Color::Magenta)));
        let mut k: usize = 0;
        while k < hunk.lines.len()
            invariant
                0 <= k <= hunk.lines@.len(),
                lines@.len() == old(lines)@.len() + 1 + k,
            decreases hunk.lines@.len() - k,
        {
            let rendered = self.render_diff_line(&hunk.lines[k]);
            lines.push(rendered);
            k += 1;
        }
    }

    /// Renders one diff line: the line-number gutter, the one-character
    /// prefix for its type, and the content without its trailing newline.
    pub fn render_diff_line(&self, line: &DiffLine) -> (r: StyledLine)
        ensures
            r.spans@.len() == 3,
            r.spans@[0].text@ == lineno_spec(line.old_lineno, line.new_lineno),
            r.spans@[1].text@ == prefix_spec(line.line_type),
            r.spans@[2].text@ == stripped(line.content@),
    {
        let style: TextStyle = match line.line_type {
            LineType::Addition => TextStyle::fg(self.colors.added),
            LineType::Deletion => TextStyle::fg(self.colors.deleted),
            LineType::Context => TextStyle::fg(self.colors.modified),
            LineType::FileHeader => TextStyle::fg_bold(Color::Cyan),
            LineType::HunkHeader => TextStyle::fg_bold(Color::Magenta),
        };
        let prefix: &str = match line.line_type {
            LineType::Addition => "+",
            LineType::Deletion => "-",
            LineType::Context => " ",
            LineType::FileHeader => "",
            LineType::HunkHeader => "",
        };
        let line_num: String = match (line.old_lineno, line.new_lineno) {
            (Some(o), Some(n)) => pad_left(dec_string(o as u64), 4).concat(" ").concat(pad_left(
                dec_string(n as u64),
                4,
            ).as_str()).concat(" "),
            (Some(o), None) => pad_left(dec_string(o as u64), 4).concat("      "),
            (None, Some(n)) => String::from_str("     ").concat(pad_left(dec_string(n as u64), 4)
                .as_str()).concat(" "),
            (None, None) => String::from_str("          "),
        };
        let mut content = line.content.clone();
        let ghost pre_pop = content@;
        let last_is_newline = match crate::strutil::last_char(&content) {
            Some(c) => c == '\n',
            None => false,
        };
        if last_is_newline {
            crate::strutil::pop_char(&mut content);
        }
        let mut r = StyledLine::of(line_num, TextStyle::fg(Color::DarkGray));
        r.push_span(String::from_str(prefix), style);
        r.push_span(content, style);
        r
    }

    /// The number of rendered lines.
    pub fn len_lines(&self) -> (r: usize)
        ensures
            r == self.lines@.len(),
    {
        self.lines.len()
    }

    /// One rendered line, for drawing.
    pub fn line(&self, i: usize) -> (r: &StyledLine)
        requires
            i < self.lines@.len(),
        ensures
            r == self.lines@[i as int],
    {
        &self.lines[i]
    }

    /// Handles one key press; see `diff_key_spec`.
    pub fn handle_key(&mut self, key: KeyPress) -> (r: Action)
        ensures
            diff_key_spec(*old(self), key, *final(self), r),
    {
        match key.code {
            Key::Char(c) => {
                if c == 'q' {
                    Action::PopView
                } else if c == 'j' {
                    self.scroll_offset = scroll_down_by(self.scroll_offset, 1, self.lines.len());
                    Action::NoOp
                } else if c == 'k' {
                    self.scroll_offset = scroll_up_by(self.scroll_offset, 1);
                    Action::NoOp
                } else if c == 'g' {
                    self.scroll_offset = 0;
                    Action::NoOp
                } else if c == 'G' {
                    let len = self.lines.len();
                    self.scroll_offset = if len == 0 {
                        0
                    } else {
                        len - 1
                    };
                    Action::NoOp
                } else if c == '?' {
                    Action::PushView(ViewType::Help)
                } else {
                    Action::NoOp
                }
            },
            Key::Esc => Action::PopView,
            Key::Down => {
                self.scroll_offset = scroll_down_by(self.scroll_offset, 1, self.lines.len());
                Action::NoOp
            },
            Key::Up => {
                self.scroll_offset = scroll_up_by(self.scroll_offset, 1);
                Action::NoOp
            },
            Key::PageDown => {
                self.scroll_offset = scroll_down_by(self.scroll_offset, 20, self.lines.len());
                Action::NoOp
            },
            Key::PageUp => {
                self.scroll_offset = scroll_up_by(self.scroll_offset, 20);
                Action::NoOp
            },
            _ => Action::NoOp,
        }
    }

    /// The heading over the content: how far the visible window (of
    /// `visible_height` lines) reaches, out of how many rendered lines.
    pub fn title_text(&self, visible_height: usize) -> (r: String)
        ensures
            r@ == "Diff - "@ + dec_seq(
                window_end_spec(
                    self.scroll_offset as int,
                    visible_height as int,
                    self.lines@.len() as int,
                ),
            ) + " / "@ + dec_seq(self.lines@.len() as int) + " lines"@,
    {
        let end = window_end(self.scroll_offset, visible_height, self.lines.len());
        String::from_str("Diff - ").concat(dec_string(end as u64).as_str()).concat(" / ").concat(
            dec_string(self.lines.len() as u64).as_str(),
        ).concat(" lines")
    }

    /// On activation: if no diff is present and no query is in flight,
    /// start one; otherwise leave everything as it is.
    pub fn on_activate(&mut self)
        ensures
            diff_activated(*old(self), *final(self)),
    {
        let start = match &self.diff {
            Some(_) => false,
            None => !self.loading,
        };
        if start {
            self.start_loading();
        }
    }

    /// The view's title, for the status bar.
    pub fn title(&self) -> (r: &'static str)
        ensures
            r@ == "Diff"@,
    {
        "Diff"
    }
}

} // verus!
