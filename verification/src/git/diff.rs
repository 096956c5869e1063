//! The diff display model: typed lines grouped into hunks, hunks into
//! files, files into one diff. The backend walks its raw diff and feeds
//! this builder one file, hunk or line at a time.

use vstd::prelude::*;
use crate::strutil::dec_seq;
use crate::strutil::dec_string;

verus! {

/// Type of diff line.
#[derive(Debug, Clone, Copy, PartialEq, Eq, Structural)]
pub enum LineType {
    Context,
    Addition,
    Deletion,
    FileHeader,
    HunkHeader,
}

/// The line type that a raw diff origin character denotes.
pub open spec fn line_type_of_spec(origin: char) -> LineType {
    if origin == '+' {
        LineType::Addition
    } else if origin == '-' {
        LineType::Deletion
    } else if origin == 'F' {
        LineType::FileHeader
    } else if origin == 'H' {
        LineType::HunkHeader
    } else {
        LineType::Context
    }
}

/// Maps a raw diff origin character to a line type. Anything unrecognised
/// counts as context.
pub fn line_type_of(origin: char) -> (r: LineType)
    ensures
        r == line_type_of_spec(origin),
{
    if origin == '+' {
        LineType::Addition
    } else if origin == '-' {
        LineType::Deletion
    } else if origin == 'F' {
        LineType::FileHeader
    } else if origin == 'H' {
        LineType::HunkHeader
    } else {
        LineType::Context
    }
}

/// A single line in a diff.
#[derive(Debug, Clone, PartialEq)]
pub struct DiffLine {
    pub line_type: LineType,
    pub content: String,
    pub old_lineno: Option<u32>,
    pub new_lineno: Option<u32>,
}

impl DiffLine {
    pub fn new(line_type: LineType, content: String, old_lineno: Option<u32>, new_lineno: Option<
        u32,
    >) -> (r: Self)
        ensures
            r == (DiffLine { line_type, content, old_lineno, new_lineno }),
    {
        DiffLine { line_type, content, old_lineno, new_lineno }
    }
}

/// A hunk in a diff.
#[derive(Debug, Clone, PartialEq)]
pub struct DiffHunk {
    pub header: String,
    pub old_start: u32,
    pub old_lines: u32,
    pub new_start: u32,
    pub new_lines: u32,
    pub lines: Vec<DiffLine>,
}

impl DiffHunk {
    pub fn new(header: String, old_start: u32, old_lines: u32, new_start: u32, new_lines: u32) -> (
        r: Self)
        ensures
            r.header == header,
            r.old_start == old_start,
            r.old_lines == old_lines,
            r.new_start == new_start,
            r.new_lines == new_lines,
            r.lines@ == Seq::<DiffLine>::empty(),
    {
        DiffHunk { header, old_start, old_lines, new_start, new_lines, lines: Vec::new() }
    }
}

/// File status in a diff.
#[derive(Debug, Clone, Copy, PartialEq, Eq, Structural)]
pub enum FileStatus {
    Added,
    Deleted,
    Modified,
    Renamed,
    Copied,
    Ignored,
    Untracked,
    Typechange,
}

/// A file in a diff.
#[derive(Debug, Clone, PartialEq)]
pub struct DiffFile {
    pub old_path: Option<String>,
    pub new_path: Option<String>,
    pub status: FileStatus,
    pub hunks: Vec<DiffHunk>,
    pub additions: usize,
    pub deletions: usize,
    pub is_binary: bool,
}

/// The display path of a file: the new path where present, else the old.
pub open spec fn file_path_spec(f: DiffFile) -> Seq<char> {
    match f.new_path {
        Option::Some(p) => p@,
        Option::None => match f.old_path {
            Option::Some(p) => p@,
            Option::None => "<unknown>"@,
        },
    }
}

impl DiffFile {
    pub fn new(old_path: Option<String>, new_path: Option<String>, status: FileStatus) -> (r: Self)
        ensures
            r.old_path == old_path,
            r.new_path == new_path,
            r.status == status,
            r.hunks@ == Seq::<DiffHunk>::empty(),
            r.additions == 0,
            r.deletions == 0,
            r.is_binary == false,
    {
        DiffFile {
            old_path,
            new_path,
            status,
            hunks: Vec::new(),
            additions: 0,
            deletions: 0,
            is_binary: false,
        }
    }

    /// The display path for this file.
    pub fn path(&self) -> (r: &str)
        ensures
            r@ == file_path_spec(*self),
    {
        match &self.new_path {
            Option::Some(p) => p.as_str(),
            Option::None => match &self.old_path {
                Option::Some(p) => p.as_str(),
                Option::None => "<unknown>",
            },
        }
    }

    /// A summary line for this file, e.g. "+10, -5".
    pub fn stats_summary(&self) -> (r: String)
        ensures
            r@ == "+"@ + dec_seq(self.additions as int) + ", -"@ + dec_seq(self.deletions as int),
    {
        let mut s = String::from_str("+");
        s.append(dec_string(self.additions as u64).as_str());
        s.append(", -");
        s.append(dec_string(self.deletions as u64).as_str());
        s
    }
}

/// Sum of the addition counters over a sequence of files.
pub open spec fn sum_additions(files: Seq<DiffFile>) -> int
    decreases files.len(),
{
    if files.len() == 0 {
        0
    } else {
        sum_additions(files.drop_last()) + files.last().additions
    }
}

/// Sum of the deletion counters over a sequence of files.
pub open spec fn sum_deletions(files: Seq<DiffFile>) -> int
    decreases files.len(),
{
    if files.len() == 0 {
        0
    } else {
        sum_deletions(files.drop_last()) + files.last().deletions
    }
}

/// Number of lines stored in a sequence of hunks.
pub open spec fn hunk_line_count(hunks: Seq<DiffHunk>) -> int
    decreases hunks.len(),
{
    if hunks.len() == 0 {
        0
    } else {
        hunk_line_count(hunks.drop_last()) + hunks.last().lines@.len()
    }
}

/// Number of lines stored in a sequence of files.
pub open spec fn file_line_count(files: Seq<DiffFile>) -> int
    decreases files.len(),
{
    if files.len() == 0 {
        0
    } else {
        file_line_count(files.drop_last()) + hunk_line_count(files.last().hunks@)
    }
}

/// A total clamped to the greatest value a usize can hold.
pub open spec fn sat_usize(x: int) -> int {
    if x > usize::MAX {
        usize::MAX as int
    } else {
        x
    }
}

/// Addition that stops at usize::MAX instead of overflowing.
pub fn sat_add(a: usize, b: usize) -> (r: usize)
    ensures
        r == sat_usize(a + b),
{
    if a > usize::MAX - b {
        usize::MAX
    } else {
        a + b
    }
}

/// A complete diff.
#[derive(Debug, Clone, PartialEq)]
pub struct Diff {
    pub files: Vec<DiffFile>,
}

/// The file most recently started.
pub open spec fn last_file(d: Diff) -> DiffFile {
    d.files@.last()
}

/// Everything of a file except its hunk list is the same in both.
pub open spec fn same_file_but_hunks(a: DiffFile, b: DiffFile) -> bool {
    &&& a.old_path == b.old_path
    &&& a.new_path == b.new_path
    &&& a.status == b.status
    &&& a.additions == b.additions
    &&& a.deletions == b.deletions
    &&& a.is_binary == b.is_binary
}

impl Diff {
    pub fn new() -> (r: Self)
        ensures
            r.files@ == Seq::<DiffFile>::empty(),
    {
        Diff { files: Vec::new() }
    }

    /// Total additions and deletions across all files. Totals beyond what a
    /// usize can hold stop at usize::MAX rather than overflowing.
    pub fn total_stats(&self) -> (r: (usize, usize))
        ensures
            r.0 == sat_usize(sum_additions(self.files@)),
            r.1 == sat_usize(sum_deletions(self.files@)),
    {
        let mut additions: usize = 0;
        let mut deletions: usize = 0;
        let mut i: usize = 0;
        while i < self.files.len()
            invariant
                0 <= i <= self.files@.len(),
                additions == sat_usize(sum_additions(self.files@.take(i as int))),
                deletions == sat_usize(sum_deletions(self.files@.take(i as int))),
            decreases self.files@.len() - i,
        {
            additions = sat_add(additions, self.files[i].additions);
            deletions = sat_add(deletions, self.files[i].deletions);
            proof {
                let t1 = self.files@.take(i + 1);
                assert(t1.drop_last() =~= self.files@.take(i as int));
                assert(t1.last() == self.files@[i as int]);
            }
            i += 1;
        }
        proof {
            assert(self.files@.take(self.files@.len() as int) =~= self.files@);
        }
        (additions, deletions)
    }

    /// The total number of stored diff lines, stopping at usize::MAX.
    pub fn total_lines(&self) -> (r: usize)
        ensures
            r == sat_usize(file_line_count(self.files@)),
    {
        let mut total: usize = 0;
        let mut i: usize = 0;
        while i < self.files.len()
            invariant
                0 <= i <= self.files@.len(),
                total == sat_usize(file_line_count(self.files@.take(i as int))),
            decreases self.files@.len() - i,
        {
            let file = &self.files[i];
            let mut j: usize = 0;
            while j < file.hunks.len()
                invariant
                    0 <= j <= file.hunks@.len(),
                    file == &self.files[i as int],
                    0 <= i < self.files@.len(),
                    total == sat_usize(
                        file_line_count(self.files@.take(i as int)) + hunk_line_count(
                            file.hunks@.take(j as int),
                        ),
                    ),
                decreases file.hunks@.len() - j,
            {
                total = sat_add(total, file.hunks[j].lines.len());
                proof {
                    let t1 = file.hunks@.take(j + 1);
                    assert(t1.drop_last() =~= file.hunks@.take(j as int));
                    assert(t1.last() == file.hunks@[j as int]);
                }
                j += 1;
            }
            proof {
                assert(file.hunks@.take(file.hunks@.len() as int) =~= file.hunks@);
                let t1 = self.files@.take(i + 1);
                assert(t1.drop_last() =~= self.files@.take(i as int));
                assert(t1.last() == self.files@[i as int]);
            }
            i += 1;
        }
        proof {
            assert(self.files@.take(self.files@.len() as int) =~= self.files@);
        }
        total
    }

    /// Starts a new file record. The backend calls this once per file in
    /// the raw diff, before any of that file's hunks.
    pub fn push_file(&mut self, file: DiffFile)
        ensures
            final(self).files@ == old(self).files@.push(file),
    {
        self.files.push(file);
    }

    /// Appends a hunk to the file most recently started.
    pub fn push_hunk(&mut self, hunk: DiffHunk)
        requires
            old(self).files@.len() > 0,
        ensures
            final(self).files@.len() == old(self).files@.len(),
            forall|i: int|
                0 <= i < old(self).files@.len() - 1 ==> final(self).files@[i]
                    == old(self).files@[i],
            last_file(*final(self)).hunks@ == last_file(*old(self)).hunks@.push(hunk),
            same_file_but_hunks(last_file(*final(self)), last_file(*old(self))),
    {
        let n = self.files.len();
        let file = &mut self.files[n - 1];
        file.hunks.push(hunk);
    }

    /// Appends a typed line to the newest hunk of the newest file, counting
    /// additions and deletions as the raw origin character says.
    pub fn push_line(
        &mut self,
        origin: char,
        content: String,
        old_lineno: Option<u32>,
        new_lineno: Option<u32>,
    )
        requires
            old(self).files@.len() > 0,
            last_file(*old(self)).hunks@.len() > 0,
            last_file(*old(self)).additions < usize::MAX,
            last_file(*old(self)).deletions < usize::MAX,
        ensures
            final(self).files@.len() == old(self).files@.len(),
            forall|i: int|
                0 <= i < old(self).files@.len() - 1 ==> final(self).files@[i]
                    == old(self).files@[i],
            last_file(*final(self)).hunks@.len() == last_file(*old(self)).hunks@.len(),
            forall|j: int|
                0 <= j < last_file(*old(self)).hunks@.len() - 1 ==> last_file(
                    *final(self),
                ).hunks@[j] == last_file(*old(self)).hunks@[j],
            last_file(*final(self)).hunks@.last().lines@ == last_file(
                *old(self),
            ).hunks@.last().lines@.push(
                (DiffLine {
                    line_type: line_type_of_spec(origin),
                    content: content,
                    old_lineno: old_lineno,
                    new_lineno: new_lineno,
                }),
            ),
            last_file(*final(self)).hunks@.last().header == last_file(
                *old(self),
            ).hunks@.last().header,
            last_file(*final(self)).additions == last_file(*old(self)).additions + (
            if origin == '+' {
                1int
            } else {
                0int
            }),
            last_file(*final(self)).deletions == last_file(*old(self)).deletions + (
            if origin == '-' {
                1int
            } else {
                0int
            }),
            last_file(*final(self)).old_path == last_file(*old(self)).old_path,
            last_file(*final(self)).new_path == last_file(*old(self)).new_path,
            last_file(*final(self)).status == last_file(*old(self)).status,
            last_file(*final(self)).is_binary == last_file(*old(self)).is_binary,
    {
        let line_type = line_type_of(origin);
        let n = self.files.len();
        let file = &mut self.files[n - 1];
        if origin == '+' {
            file.additions = file.additions + 1;
        } else if origin == '-' {
            file.deletions = file.deletions + 1;
        }
        let m = file.hunks.len();
        let hunk = &mut file.hunks[m - 1];
        hunk.lines.push(DiffLine { line_type, content, old_lineno, new_lineno });
    }
}

impl Default for Diff {
    fn default() -> (r: Self)
        ensures
            r.files@ == Seq::<DiffFile>::empty(),
    {
        Diff::new()
    }
}

} // verus!
