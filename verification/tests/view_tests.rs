use rust_tig::config::{ColorScheme, Config};
use rust_tig::git::{Commit, Diff, GitError, Repository, Status};
use rust_tig::ui::{App, Event};
use rust_tig::git::{DiffLine, EntryStatus, LineType, StatusEntry};
use rust_tig::views::{Action, AnyView, DiffView, DisplayItem, HelpView, Key, KeyPress, MainView,
    Section, StatusView, ViewManager, ViewType};

fn test_repo() -> Repository {
    Repository::from_path("/tmp/repo".to_string())
}

fn test_color_scheme() -> ColorScheme {
    ColorScheme::from_config(&Config::default().colors)
}

fn commit(n: u32, summary: &str) -> Commit {
    Commit {
        id: format!("{:040x}", n),
        short_id: format!("{:07x}", n),
        author: "Test".to_string(),
        author_email: "test@example.com".to_string(),
        timestamp: 0,
        summary: summary.to_string(),
        message: summary.to_string(),
        refs: vec![],
    }
}

fn press(key: Key) -> KeyPress {
    KeyPress::plain(key)
}

#[test]
fn test_action_equality() {
    assert_eq!(Action::Quit, Action::Quit);
    assert_eq!(Action::NoOp, Action::NoOp);
    assert_ne!(Action::Quit, Action::NoOp);
}

#[test]
fn test_view_type_equality() {
    assert_eq!(ViewType::Main, ViewType::Main);
    assert_ne!(ViewType::Main, ViewType::Diff);
}

#[test]
fn test_view_manager_creation() {
    let manager = ViewManager::new();
    assert!(manager.is_empty());
    assert_eq!(manager.len(), 0);
}

#[test]
fn test_push_view() {
    let mut manager = ViewManager::new();
    manager.push(AnyView::Help(HelpView::new()));
    assert_eq!(manager.len(), 1);
    assert_eq!(manager.current_title(), "Help");
}

#[test]
fn test_pop_view() {
    let mut manager = ViewManager::new();
    manager.push(AnyView::Main(MainView::new(test_repo())));
    manager.push(AnyView::Help(HelpView::new()));

    assert_eq!(manager.len(), 2);
    manager.pop().unwrap();
    assert_eq!(manager.len(), 1);
    assert_eq!(manager.current_title(), "Main");
}

#[test]
fn test_cannot_pop_last_view() {
    let mut manager = ViewManager::new();
    manager.push(AnyView::Main(MainView::new(test_repo())));

    let result = manager.pop();
    assert!(result.is_err());
    assert_eq!(manager.len(), 1);
}

#[test]
fn test_switch_view() {
    let mut manager = ViewManager::new();
    manager.push(AnyView::Main(MainView::new(test_repo())));
    manager.switch(AnyView::Help(HelpView::new()));

    assert_eq!(manager.len(), 1);
    assert_eq!(manager.current_title(), "Help");
}

#[test]
fn test_three_view_stack_pops_to_main() {
    // Stack of {Main, Status, Help}: two pops leave {Main}, a third pop
    // is refused with the stack-underflow error.
    let mut manager = ViewManager::new();
    manager.push(AnyView::Main(MainView::new(test_repo())));
    manager.push(AnyView::Status(StatusView::new(test_repo())));
    manager.push(AnyView::Help(HelpView::new()));
    assert_eq!(manager.len(), 3);

    manager.pop().unwrap();
    manager.pop().unwrap();
    assert_eq!(manager.len(), 1);
    assert_eq!(manager.current_title(), "Main");

    let result = manager.pop();
    assert!(result.is_err());
    assert_eq!(manager.len(), 1);
}

#[test]
fn test_app_creation() {
    let app = App::new();
    assert!(app.is_running());
}

#[test]
fn test_quit_on_ctrl_c() {
    let mut app = App::new();
    let event = Event::Key(KeyPress::with_ctrl(Key::Char('c')));
    app.handle_event(event);
    assert!(!app.is_running());
}

#[test]
fn test_app_init_pushes_main_view() {
    let mut app = App::new();
    app.init_with(test_repo(), Some("main".to_string()));
    assert_eq!(app.view_manager.len(), 1);
    assert_eq!(app.view_manager.current_title(), "Main");
    assert_eq!(app.branch, Some("main".to_string()));
}

#[test]
fn test_app_help_and_pop_round_trip() {
    let mut app = App::new();
    app.init_with(test_repo(), None);
    app.handle_event(Event::Key(press(Key::Char('?'))));
    assert_eq!(app.view_manager.current_title(), "Help");
    app.handle_event(Event::Key(press(Key::Esc)));
    assert_eq!(app.view_manager.current_title(), "Main");
}

#[test]
fn test_app_update_reaches_current_view() {
    let mut app = App::new();
    app.init_with(test_repo(), None);
    // the pushed history view started loading on activation
    let (walker, tx) = match app.view_manager.view_stack.last_mut().unwrap() {
        AnyView::Main(view) => view.take_pending().expect("a pending walk"),
        _ => panic!("a history view was expected on top"),
    };
    assert_eq!(walker.chunk_size, 50);
    tx.send(vec![commit(1, "one"), commit(2, "two")]).unwrap();

    app.update();

    match app.view_manager.view_stack.last().unwrap() {
        AnyView::Main(view) => assert_eq!(view.commits.len(), 2),
        _ => panic!("a history view was expected on top"),
    }
}

#[test]
fn test_status_view_empty_poll_keeps_trigger() {
    let mut view = StatusView::new(test_repo());
    view.items.push(DisplayItem::entry(
        Section::Untracked,
        StatusEntry::new("new.txt".to_string(), EntryStatus::WorktreeNew, false),
    ));
    view.selected = Some(0);
    view.handle_key(press(Key::Char('u')));
    let (_request, _done) = view.take_pending_mutation().expect("a pending mutation");

    // no pulse yet: the trigger must survive the empty poll
    view.update();
    assert!(view.refresh_trigger.is_some());
}

#[test]
fn test_main_view_creation() {
    let view = MainView::new(test_repo());
    assert_eq!(view.commits.len(), 0);
}

#[test]
fn test_main_view_navigation() {
    let mut view = MainView::new(test_repo());
    for i in 0..10u32 {
        view.commits.push(commit(i, &format!("Commit {}", i)));
    }

    view.handle_key(press(Key::Down));
    assert_eq!(view.selected, Some(1));

    view.handle_key(press(Key::Up));
    assert_eq!(view.selected, Some(0));

    view.handle_key(press(Key::Char('G')));
    assert_eq!(view.selected, Some(9));

    view.handle_key(press(Key::Char('g')));
    assert_eq!(view.selected, Some(0));
}

#[test]
fn test_main_view_search() {
    let mut view = MainView::new(test_repo());
    view.commits.push(commit(1, "Fix bug in parser"));
    view.commits.push(commit(2, "Add new feature"));
    view.commits.push(commit(3, "Fix typo"));

    // Enter search mode
    view.handle_key(press(Key::Char('/')));

    // Search for "fix"
    view.handle_key(press(Key::Char('f')));
    view.handle_key(press(Key::Char('i')));
    view.handle_key(press(Key::Char('x')));

    // Should find 2 commits with "fix" (case-insensitive)
    assert_eq!(view.filtered_commits.len(), 2);

    // Test backspace
    view.handle_key(press(Key::Backspace));
    assert_eq!(view.search_query, "fi");

    // Exit search mode
    view.handle_key(press(Key::Esc));
    assert_eq!(view.filtered_commits.len(), 0);
    assert_eq!(view.search_query, "");
}

#[test]
fn test_main_view_search_matches_exact_rows() {
    // The query "fix" over summaries ["Fix bug", "Add feature",
    // "Fix typo"] selects exactly the first and third commits,
    // independent of case.
    let mut view = MainView::new(test_repo());
    view.commits.push(commit(1, "Fix bug"));
    view.commits.push(commit(2, "Add feature"));
    view.commits.push(commit(3, "Fix typo"));

    view.handle_key(press(Key::Char('/')));
    view.handle_key(press(Key::Char('f')));
    view.handle_key(press(Key::Char('i')));
    view.handle_key(press(Key::Char('x')));

    assert_eq!(view.filtered_commits, vec![0, 2]);
    assert_eq!(view.displayed_at(0).unwrap().summary, "Fix bug");
    assert_eq!(view.displayed_at(1).unwrap().summary, "Fix typo");
}

#[test]
fn test_main_view_search_reapplication_is_stable() {
    // Re-running the same query over the same commits yields the same
    // index set.
    let mut view = MainView::new(test_repo());
    view.commits.push(commit(1, "Fix bug"));
    view.commits.push(commit(2, "Add feature"));
    view.commits.push(commit(3, "Fix typo"));

    view.handle_key(press(Key::Char('/')));
    view.handle_key(press(Key::Char('f')));
    let first = view.filtered_commits.clone();

    // Retype the same query from scratch
    view.handle_key(press(Key::Esc));
    view.handle_key(press(Key::Char('/')));
    view.handle_key(press(Key::Char('f')));
    assert_eq!(view.filtered_commits, first);
}

#[test]
fn test_main_view_search_empty_query() {
    let mut view = MainView::new(test_repo());
    view.commits.push(commit(1, "Test commit"));

    view.handle_key(press(Key::Char('/')));
    assert_eq!(view.filtered_commits.len(), 0);
}

#[test]
fn test_main_view_search_no_matches() {
    let mut view = MainView::new(test_repo());
    view.commits.push(commit(1, "Test commit"));

    view.handle_key(press(Key::Char('/')));
    view.handle_key(press(Key::Char('x')));
    view.handle_key(press(Key::Char('y')));
    view.handle_key(press(Key::Char('z')));

    assert_eq!(view.filtered_commits.len(), 0);
}

#[test]
fn test_main_view_page_navigation() {
    let mut view = MainView::new(test_repo());
    for i in 0..50u32 {
        view.commits.push(commit(i, &format!("Commit {}", i)));
    }

    view.handle_key(press(Key::PageDown));
    assert_eq!(view.selected, Some(20));

    view.handle_key(press(Key::PageUp));
    assert_eq!(view.selected, Some(0));

    view.handle_key(press(Key::Char('G')));
    view.handle_key(press(Key::PageDown));
    assert_eq!(view.selected, Some(49));
}

#[test]
fn test_main_view_update_before_loading_is_noop() {
    let mut view = MainView::new(test_repo());
    view.commits.push(commit(1, "one"));
    view.update();
    assert_eq!(view.commits.len(), 1);
    assert!(!view.loading);
    assert!(view.receiver.is_none());
}

#[test]
fn test_main_view_receives_chunks_in_order() {
    let mut view = MainView::new(test_repo());
    view.start_loading();
    let (walker, tx) = view.take_pending().expect("a pending walk");
    assert_eq!(walker.chunk_size, 50);

    tx.send(vec![commit(1, "first"), commit(2, "second")]).unwrap();
    tx.send(vec![commit(3, "third")]).unwrap();
    view.update();

    let summaries: Vec<&str> = view.commits.iter().map(|c| c.summary.as_str()).collect();
    assert_eq!(summaries, vec!["first", "second", "third"]);
}

#[test]
fn test_main_view_enter_opens_selected_commit() {
    let mut view = MainView::new(test_repo());
    view.commits.push(commit(7, "Chosen one"));
    let action = view.handle_key(press(Key::Enter));
    match action {
        Action::OpenDiff { commit_id, summary, .. } => {
            assert_eq!(commit_id, format!("{:040x}", 7));
            assert_eq!(summary, "Chosen one");
        }
        other => panic!("unexpected action: {:?}", other),
    }
}

#[test]
fn test_main_view_commit_row() {
    let mut c = commit(0x1234567, "A summary");
    c.refs = vec!["main".to_string(), "origin/main".to_string()];
    let view = MainView::new(test_repo());
    let row = view.create_commit_row(&c, 7200);
    assert_eq!(row.hash, "1234567");
    assert_eq!(row.date, "2 hours ago");
    assert_eq!(row.author, "Test");
    assert_eq!(row.refs, " [main, origin/main]");
    assert_eq!(row.message, "A summary");
}

#[test]
fn test_diff_view_creation() {
    let view = DiffView::new(
        test_repo(),
        "abc".to_string(),
        "Test commit".to_string(),
        test_color_scheme(),
    );
    assert_eq!(view.title(), "Diff");
    assert!(view.diff.is_none());
}

#[test]
fn test_diff_view_load() {
    let mut view = DiffView::new(
        test_repo(),
        "abc".to_string(),
        "Test commit".to_string(),
        test_color_scheme(),
    );
    view.on_activate();
    assert!(view.loading);
    let (request, tx) = view.take_pending().expect("a pending query");
    assert_eq!(request.repo.path(), "/tmp/repo");

    tx.send(Ok(Diff::new())).unwrap();
    view.update();

    assert!(view.diff.is_some());
    assert!(!view.loading);
    assert!(!view.lines.is_empty());
}

#[test]
fn test_diff_view_error_is_kept() {
    let mut view = DiffView::new(test_repo(), "abc".to_string(), "s".to_string(),
        test_color_scheme());
    view.start_loading();
    let (_request, tx) = view.take_pending().expect("a pending query");
    tx.send(Err(GitError::RepoNotFound)).unwrap();
    view.update();
    assert_eq!(
        view.error.as_deref(),
        Some("Failed to load diff: Git repository not found")
    );
}

#[test]
fn test_diff_view_scrolling() {
    let mut view = DiffView::new(test_repo(), "abc".to_string(), "s".to_string(),
        test_color_scheme());
    view.start_loading();
    let (_request, tx) = view.take_pending().expect("a pending query");
    tx.send(Ok(Diff::new())).unwrap();
    view.update();

    let initial_offset = view.scroll_offset;
    assert_eq!(initial_offset, 0);
    view.handle_key(press(Key::Down));
    assert!(view.scroll_offset > initial_offset);

    view.handle_key(press(Key::Char('g')));
    assert_eq!(view.scroll_offset, 0);

    view.handle_key(press(Key::Char('G')));
    assert!(view.scroll_offset > 0);
    assert_eq!(view.scroll_offset, view.len_lines() - 1);
}

#[test]
fn test_diff_view_update_before_loading_is_noop() {
    let mut view = DiffView::new(test_repo(), "abc".to_string(), "s".to_string(),
        test_color_scheme());
    view.update();
    assert!(view.diff.is_none());
    assert!(!view.loading);
    assert!(view.error.is_none());
}

#[test]
fn test_orphaned_diff_query_does_not_panic() {
    // Start a diff query, pop the view before the result arrives, and
    // let the background side send into the now-orphaned channel: the
    // send simply fails, nothing panics.
    let mut manager = ViewManager::new();
    manager.push(AnyView::Main(MainView::new(test_repo())));
    let mut diff_view = DiffView::new(test_repo(), "abc".to_string(), "s".to_string(),
        test_color_scheme());
    diff_view.on_activate();
    let (_request, tx) = diff_view.take_pending().expect("a pending query");
    manager.push(AnyView::Diff(diff_view));

    manager.pop().unwrap();  // the diff view is dropped here

    let result = tx.send(Ok(Diff::new()));
    assert!(result.is_err());
}

#[test]
fn test_status_view_creation() {
    let view = StatusView::new(test_repo());
    assert_eq!(view.title(), "Status");
    assert!(view.status.is_none());
}

#[test]
fn test_status_view_load() {
    let mut view = StatusView::new(test_repo());
    view.on_activate();
    assert!(view.loading);
    let (repo, tx) = view.take_pending_load().expect("a pending load");
    assert_eq!(repo.path(), "/tmp/repo");

    tx.send(Ok(Status::new())).unwrap();
    view.update();

    assert!(view.status.is_some());
    assert!(!view.loading);
}

#[test]
fn test_status_view_builds_sections() {
    let mut view = StatusView::new(test_repo());
    view.start_loading();
    let (_repo, tx) = view.take_pending_load().unwrap();

    let mut status = Status::new();
    status.staged.push(StatusEntry::new("a.txt".to_string(), EntryStatus::IndexNew, false));
    status.untracked.push(StatusEntry::new("b.txt".to_string(), EntryStatus::WorktreeNew, false));
    tx.send(Ok(status)).unwrap();
    view.update();

    // one header + one entry per non-empty section
    assert_eq!(view.items.len(), 4);
    assert!(view.items[0].is_header);
    assert_eq!(view.items[1].entry.as_ref().unwrap().path, "a.txt");
    assert!(view.items[2].is_header);
    assert_eq!(view.items[3].entry.as_ref().unwrap().path, "b.txt");
}

#[test]
fn test_status_view_navigation() {
    let mut view = StatusView::new(test_repo());

    view.items.push(DisplayItem::header(Section::Staged));
    view.items.push(DisplayItem::entry(
        Section::Staged,
        StatusEntry::new("file1.txt".to_string(), EntryStatus::IndexNew, false),
    ));
    view.items.push(DisplayItem::entry(
        Section::Staged,
        StatusEntry::new("file2.txt".to_string(), EntryStatus::IndexNew, false),
    ));

    view.handle_key(press(Key::Down));
    assert_eq!(view.selected, Some(1));

    view.handle_key(press(Key::Up));
    assert_eq!(view.selected, Some(0));

    view.handle_key(press(Key::Char('G')));
    assert_eq!(view.selected, Some(2));

    view.handle_key(press(Key::Char('g')));
    assert_eq!(view.selected, Some(0));
}

#[test]
fn test_status_view_update_before_loading_is_noop() {
    let mut view = StatusView::new(test_repo());
    view.update();
    assert!(view.status.is_none());
    assert!(!view.loading);
}

#[test]
fn test_status_view_mutation_round_trip() {
    let mut view = StatusView::new(test_repo());
    view.items.push(DisplayItem::header(Section::Untracked));
    view.items.push(DisplayItem::entry(
        Section::Untracked,
        StatusEntry::new("new.txt".to_string(), EntryStatus::WorktreeNew, false),
    ));
    view.handle_key(press(Key::Down));

    // 'u' requests the mutation and installs the refresh trigger
    view.handle_key(press(Key::Char('u')));
    let (request, done) = view.take_pending_mutation().expect("a pending mutation");
    assert_eq!(request.path, "new.txt");
    assert!(request.stage);

    // the background side completes and pulses; the next update starts a
    // fresh read query
    done.send(()).unwrap();
    view.update();
    assert!(view.loading);
    assert!(view.take_pending_load().is_some());
}

#[test]
fn test_help_view_scrolls_within_bounds() {
    let mut view = HelpView::new();
    assert_eq!(view.scroll_offset, 0);
    view.handle_key(press(Key::Up));
    assert_eq!(view.scroll_offset, 0);
    view.handle_key(press(Key::Down));
    assert_eq!(view.scroll_offset, 1);
    view.handle_key(press(Key::Char('G')));
    assert_eq!(view.scroll_offset, view.len_lines() - 1);
    view.handle_key(press(Key::PageDown));
    assert_eq!(view.scroll_offset, view.len_lines() - 1);
    let action = view.handle_key(press(Key::Esc));
    assert_eq!(action, Action::PopView);
}

#[test]
fn test_render_diff_line_gutter() {
    let view = DiffView::new(test_repo(), "abc".to_string(), "s".to_string(),
        test_color_scheme());
    let rendered = view.render_diff_line(&DiffLine::new(
        LineType::Addition,
        "added text\n".to_string(),
        None,
        Some(12),
    ));
    assert_eq!(rendered.spans.len(), 3);
    assert_eq!(rendered.spans[0].text, "       12 ");
    assert_eq!(rendered.spans[1].text, "+");
    assert_eq!(rendered.spans[2].text, "added text");

    let rendered = view.render_diff_line(&DiffLine::new(
        LineType::Deletion,
        "gone".to_string(),
        Some(3),
        None,
    ));
    assert_eq!(rendered.spans[0].text, "   3      ");
    assert_eq!(rendered.spans[1].text, "-");
    assert_eq!(rendered.spans[2].text, "gone");
}
