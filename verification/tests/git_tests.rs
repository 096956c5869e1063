use rust_tig::git::{Commit, Diff, DiffFile, DiffLine, EntryStatus, FileStatus, GitError,
    LineType, Repository, Status, StatusEntry, StatusFlags};
use rust_tig::git::diff::{line_type_of, DiffHunk};
use rust_tig::git::status::parse_status_flags;
use rust_tig::git::walker::CommitWalker;

fn commit(n: u32, summary: &str) -> Commit {
    Commit {
        id: format!("{:040x}", n),
        short_id: format!("{:07x}", n),
        author: "Test".to_string(),
        author_email: "test@example.com".to_string(),
        timestamp: 0,
        summary: summary.to_string(),
        message: summary.to_string(),
        refs: vec![],
    }
}

#[test]
fn test_diff_line_types() {
    let line = DiffLine::new(LineType::Addition, "+test".to_string(), None, Some(1));
    assert_eq!(line.line_type, LineType::Addition);
    assert_eq!(line.content, "+test");
}

#[test]
fn test_entry_status_short_code() {
    assert_eq!(EntryStatus::IndexNew.short_code(), "A ");
    assert_eq!(EntryStatus::WorktreeModified.short_code(), " M");
    assert_eq!(EntryStatus::WorktreeNew.short_code(), "??");
}

#[test]
fn test_entry_status_is_staged() {
    assert!(EntryStatus::IndexNew.is_staged());
    assert!(EntryStatus::IndexModified.is_staged());
    assert!(!EntryStatus::WorktreeModified.is_staged());
}

#[test]
fn test_entry_status_is_unstaged() {
    assert!(EntryStatus::WorktreeModified.is_unstaged());
    assert!(EntryStatus::WorktreeDeleted.is_unstaged());
    assert!(!EntryStatus::IndexModified.is_unstaged());
}

#[test]
fn test_relative_date_pluralization() {
    // Test that the pluralization works correctly
    let format_unit = |count: i64, unit: &str| {
        format!("{} {}{} ago", count, unit, if count == 1 { "" } else { "s" })
    };

    assert_eq!(format_unit(1, "minute"), "1 minute ago");
    assert_eq!(format_unit(2, "minute"), "2 minutes ago");
    assert_eq!(format_unit(1, "hour"), "1 hour ago");
    assert_eq!(format_unit(24, "hour"), "24 hours ago");
}

#[test]
fn test_relative_date_rendering() {
    let c = commit(1, "x");
    // timestamp is 0, so now_ts is the age in seconds
    assert_eq!(c.relative_date(30), "just now");
    assert_eq!(c.relative_date(60), "1 minute ago");
    assert_eq!(c.relative_date(120), "2 minutes ago");
    assert_eq!(c.relative_date(3600), "1 hour ago");
    assert_eq!(c.relative_date(2 * 86400), "2 days ago");
    assert_eq!(c.relative_date(3 * 604800), "3 weeks ago");
    assert_eq!(c.relative_date(65 * 86400), "2 months ago");
    assert_eq!(c.relative_date(800 * 86400), "2 years ago");
}

#[test]
fn test_repository_path_round_trip() {
    let repo = Repository::from_path("/tmp/somewhere".to_string());
    assert_eq!(repo.path(), "/tmp/somewhere");
    let copy = repo.clone();
    assert_eq!(copy, repo);
}

#[test]
fn test_git_error_messages() {
    assert_eq!(GitError::RepoNotFound.message(), "Git repository not found");
    assert_eq!(GitError::NotARepo.message(), "Not in a git repository");
    assert_eq!(GitError::Git("boom".to_string()).message(), "Git error: boom");
    assert_eq!(GitError::Io("nope".to_string()).message(), "IO error: nope");
    assert_eq!(GitError::InvalidUtf8.message(), "Invalid UTF-8 in git data");
}

#[test]
fn test_diff_builder_counts_additions_and_deletions() {
    let mut diff = Diff::new();
    diff.push_file(DiffFile::new(
        Some("a.txt".to_string()),
        Some("a.txt".to_string()),
        FileStatus::Modified,
    ));
    diff.push_hunk(DiffHunk::new("@@ -1,2 +1,3 @@\n".to_string(), 1, 2, 1, 3));
    diff.push_line(' ', "line1\n".to_string(), Some(1), Some(1));
    diff.push_line('-', "old\n".to_string(), Some(2), None);
    diff.push_line('+', "new\n".to_string(), None, Some(2));
    diff.push_line('+', "more\n".to_string(), None, Some(3));

    assert_eq!(diff.files.len(), 1);
    assert_eq!(diff.files[0].additions, 2);
    assert_eq!(diff.files[0].deletions, 1);
    assert_eq!(diff.total_stats(), (2, 1));
    assert_eq!(diff.total_lines(), 4);
    assert_eq!(diff.files[0].stats_summary(), "+2, -1");
    assert_eq!(diff.files[0].path(), "a.txt");
}

#[test]
fn test_line_type_of_origin() {
    assert_eq!(line_type_of('+'), LineType::Addition);
    assert_eq!(line_type_of('-'), LineType::Deletion);
    assert_eq!(line_type_of(' '), LineType::Context);
    assert_eq!(line_type_of('F'), LineType::FileHeader);
    assert_eq!(line_type_of('H'), LineType::HunkHeader);
    assert_eq!(line_type_of('x'), LineType::Context);
}

#[test]
fn test_diff_file_path_fallbacks() {
    let deleted = DiffFile::new(Some("gone.txt".to_string()), None, FileStatus::Deleted);
    assert_eq!(deleted.path(), "gone.txt");
    let unknown = DiffFile::new(None, None, FileStatus::Modified);
    assert_eq!(unknown.path(), "<unknown>");
}

#[test]
fn test_parse_status_flags_conflict_shadows() {
    let mut flags = StatusFlags {
        conflicted: true,
        index_new: true,
        index_modified: false,
        index_deleted: false,
        index_renamed: false,
        index_typechange: false,
        wt_new: true,
        wt_modified: false,
        wt_deleted: false,
        wt_renamed: false,
        wt_typechange: false,
        ignored: false,
    };
    assert_eq!(parse_status_flags(flags), vec![EntryStatus::Conflicted]);
    flags.conflicted = false;
    assert_eq!(
        parse_status_flags(flags),
        vec![EntryStatus::IndexNew, EntryStatus::WorktreeNew]
    );
}

#[test]
fn test_status_record_partitions() {
    let mut status = Status::new();
    let plain = StatusFlags {
        conflicted: false,
        index_new: false,
        index_modified: false,
        index_deleted: false,
        index_renamed: false,
        index_typechange: false,
        wt_new: false,
        wt_modified: false,
        wt_deleted: false,
        wt_renamed: false,
        wt_typechange: false,
        ignored: false,
    };
    status.record("staged.txt".to_string(), StatusFlags { index_new: true, ..plain });
    status.record("untracked.txt".to_string(), StatusFlags { wt_new: true, ..plain });
    status.record("modified.txt".to_string(), StatusFlags { wt_modified: true, ..plain });
    status.record("conflict.txt".to_string(), StatusFlags { conflicted: true, ..plain });
    status.record("ignored.txt".to_string(), StatusFlags { ignored: true, ..plain });

    assert_eq!(status.staged.len(), 1);
    assert_eq!(status.staged[0].path, "staged.txt");
    assert_eq!(status.staged[0].status, EntryStatus::IndexNew);
    assert_eq!(status.untracked.len(), 1);
    assert_eq!(status.unstaged.len(), 1);
    assert_eq!(status.conflicted.len(), 1);
    assert!(status.has_changes());
    assert_eq!(status.total_count(), 4);
}

#[test]
fn test_status_counts() {
    let mut status = Status::new();
    status.staged.push(StatusEntry::new("a".to_string(), EntryStatus::IndexNew, false));
    status.untracked.push(StatusEntry::new("b".to_string(), EntryStatus::WorktreeNew, false));
    let total = status.total_count();
    assert_eq!(
        total,
        status.staged.len() + status.unstaged.len() + status.untracked.len()
    );
}

#[test]
fn test_empty_status_has_no_changes() {
    let status = Status::new();
    assert!(!status.has_changes());
    assert_eq!(status.total_count(), 0);
}

#[test]
fn test_chunk_stream_sizes_and_order() {
    // A stream of five commits with chunk size two arrives as chunks of
    // sizes 2, 2, 1, and concatenates back to the full history in order.
    let walker = CommitWalker::new(Repository::from_path("r".to_string())).with_chunk_size(2);
    let mut buffer = walker.buffer();
    let mut chunks: Vec<Vec<Commit>> = Vec::new();
    for i in 0..5u32 {
        if let Some(chunk) = buffer.push(commit(i, &format!("Commit {}", i))) {
            chunks.push(chunk);
        }
    }
    if let Some(rest) = buffer.finish() {
        chunks.push(rest);
    }
    let sizes: Vec<usize> = chunks.iter().map(|c| c.len()).collect();
    assert_eq!(sizes, vec![2, 2, 1]);
    let total: usize = sizes.iter().sum();
    assert_eq!(total, 5);
    let flattened: Vec<String> = chunks
        .iter()
        .flat_map(|c| c.iter().map(|cm| cm.summary.clone()))
        .collect();
    let expected: Vec<String> = (0..5u32).map(|i| format!("Commit {}", i)).collect();
    assert_eq!(flattened, expected);
}

#[test]
fn test_chunk_stream_exact_multiple() {
    let walker = CommitWalker::new(Repository::from_path("r".to_string())).with_chunk_size(2);
    let mut buffer = walker.buffer();
    let mut chunks: Vec<Vec<Commit>> = Vec::new();
    for i in 0..4u32 {
        if let Some(chunk) = buffer.push(commit(i, "c")) {
            chunks.push(chunk);
        }
    }
    assert!(buffer.finish().is_none());
    let sizes: Vec<usize> = chunks.iter().map(|c| c.len()).collect();
    assert_eq!(sizes, vec![2, 2]);
}

#[test]
fn test_chunk_size_zero_behaves_as_one() {
    let walker = CommitWalker::new(Repository::from_path("r".to_string())).with_chunk_size(0);
    let mut buffer = walker.buffer();
    let mut sizes: Vec<usize> = Vec::new();
    for i in 0..3u32 {
        if let Some(chunk) = buffer.push(commit(i, "c")) {
            sizes.push(chunk.len());
        }
    }
    assert!(buffer.finish().is_none());
    assert_eq!(sizes, vec![1, 1, 1]);
}

#[test]
fn test_walker_default_chunk_size() {
    let walker = CommitWalker::new(Repository::from_path("r".to_string()));
    assert_eq!(walker.chunk_size, 100);
    let walker = walker.with_chunk_size(10);
    assert_eq!(walker.chunk_size, 10);
}
