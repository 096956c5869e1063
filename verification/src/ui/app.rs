//! The application shell state: the running flag, the view stack, and
//! the rules that turn events and view actions into stack mutations.
//! Drawing and event polling live outside; they drive this state through
//! `handle_event` and `update`.

use vstd::prelude::*;
use crate::config::colors::ColorScheme;
use crate::config::config::Config;
use crate::git::error::{message_spec, GitError};
use crate::git::repository::Repository;
use crate::views::diff_view::{DiffSource, DiffView};
use crate::views::help_view::HelpView;
use crate::views::main_view::MainView;
use crate::views::manager::{updated_from, view_type_of, AnyView, ViewManager};
use crate::views::status_view::StatusView;
use crate::views::view::{Action, Key, KeyPress, ViewType};

verus! {

/// An input event, as the shell sees it.
#[derive(Debug, Clone, Copy, PartialEq)]
pub enum Event {
    Key(KeyPress),
    Mouse,
    Resize(u16, u16),
    Tick,
}

/// Main application state.
#[derive(Debug)]
pub struct App {
    pub running: bool,
    pub view_manager: ViewManager,
    pub repo: Option<Repository>,
    pub branch: Option<String>,
    pub error: Option<String>,
    pub colors: ColorScheme,
}

/// A view of kind `vt` was pushed on top; everything below is unchanged.
pub open spec fn pushed_kind(pre: ViewManager, post: ViewManager, vt: ViewType) -> bool {
    &&& post.view_stack@.len() == pre.view_stack@.len() + 1
    &&& forall|i: int|
        0 <= i < pre.view_stack@.len() ==> post.view_stack@[i] == pre.view_stack@[i]
    &&& view_type_of(post.view_stack@.last()) == vt
}

/// What applying one view action does to the shell: Quit stops the loop;
/// the push actions put the named view (or a diff over the named source)
/// on the stack; PopView pops unless only one view is left; everything
/// else changes nothing.
pub open spec fn action_spec(pre: App, action: Action, post: App) -> bool {
    &&& post.repo == pre.repo
    &&& post.branch == pre.branch
    &&& post.error == pre.error
    &&& post.colors == pre.colors
    &&& match action {
        Action::Quit => post == (App { running: false, ..pre }),
        Action::NoOp => post == pre,
        Action::SwitchView(_) => post == pre,
        Action::PushView(vt) => if vt == ViewType::Status {
            match pre.repo {
                Some(r) => {
                    &&& post.running == pre.running
                    &&& pushed_kind(pre.view_manager, post.view_manager, ViewType::Status)
                    &&& match post.view_manager.view_stack@.last() {
                        AnyView::Status(s) => s.repo == r,
                        _ => false,
                    }
                },
                None => post == pre,
            }
        } else if vt == ViewType::Help {
            &&& post.running == pre.running
            &&& pushed_kind(pre.view_manager, post.view_manager, ViewType::Help)
        } else {
            post == pre
        },
        Action::PopView => {
            &&& post.running == pre.running
            &&& (pre.view_manager.view_stack@.len() <= 1 ==> post.view_manager
                == pre.view_manager)
            &&& (pre.view_manager.view_stack@.len() > 1 ==> post.view_manager.view_stack@.len()
                == pre.view_manager.view_stack@.len() - 1)
        },
        Action::OpenDiff { repo, commit_id, summary } => {
            &&& post.running == pre.running
            &&& pushed_kind(pre.view_manager, post.view_manager, ViewType::Diff)
            &&& match post.view_manager.view_stack@.last() {
                AnyView::Diff(d) => d.repo == repo && d.source == (DiffSource::Commit {
                    id: commit_id,
                    summary,
                }),
                _ => false,
            }
        },
        Action::OpenStagedDiff { repo, path } => {
            &&& post.running == pre.running
            &&& pushed_kind(pre.view_manager, post.view_manager, ViewType::Diff)
            &&& match post.view_manager.view_stack@.last() {
                AnyView::Diff(d) => d.repo == repo && d.source == (DiffSource::StagedFile {
                    path,
                }),
                _ => false,
            }
        },
        Action::OpenUnstagedDiff { repo, path } => {
            &&& post.running == pre.running
            &&& pushed_kind(pre.view_manager, post.view_manager, ViewType::Diff)
            &&& match post.view_manager.view_stack@.last() {
                AnyView::Diff(d) => d.repo == repo && d.source == (DiffSource::UnstagedFile {
                    path,
                }),
                _ => false,
            }
        },
    }
}

impl App {
    /// A fresh shell: running, with an empty stack, no repository yet,
    /// and the default color scheme.
    pub fn new() -> (r: Self)
        ensures
            r.running == true,
            r.view_manager.view_stack@.len() == 0,
            r.repo is None,
            r.branch is None,
            r.error is None,
    {
        let config = Config::default();
        App {
            running: true,
            view_manager: ViewManager::new(),
            repo: None,
            branch: None,
            error: None,
            colors: ColorScheme::from_config(&config.colors),
        }
    }

    /// Whether the main loop should keep running.
    pub fn is_running(&self) -> (r: bool)
        ensures
            r == self.running,
    {
        self.running
    }

    /// Adopts an opened repository: remembers it and its branch name and
    /// pushes the history view, which starts loading on activation.
    pub fn init_with(&mut self, repo: Repository, branch: Option<String>)
        ensures
            final(self).repo == Some(repo),
            final(self).branch == branch,
            final(self).running == old(self).running,
            final(self).error == old(self).error,
            final(self).view_manager.view_stack@.len() == old(
                self,
            ).view_manager.view_stack@.len() + 1,
            view_type_of(final(self).view_manager.view_stack@.last()) == ViewType::Main,
            match final(self).view_manager.view_stack@.last() {
                AnyView::Main(m) => m.repo == repo,
                _ => false,
            },
    {
        self.branch = branch;
        self.repo = Some(repo.clone());
        let main_view = MainView::new(repo);
        self.view_manager.push(AnyView::Main(main_view));
    }

    /// Records that no repository could be opened; the error is shown
    /// instead of any view.
    pub fn fail_init(&mut self, e: &GitError)
        ensures
            *final(self) == (App { error: final(self).error, ..*old(self) }),
            match final(self).error {
                Some(m) => m@ == "Failed to open repository: "@ + message_spec(*e),
                None => false,
            },
    {
        self.error = Some(
            String::from_str("Failed to open repository: ").concat(e.message().as_str()),
        );
    }

    /// Handles one event: a key press is dispatched; mouse, resize and
    /// tick events change nothing here.
    pub fn handle_event(&mut self, event: Event)
        ensures
            match event {
                Event::Key(key) => key_event_spec(*old(self), key, *final(self)),
                _ => *final(self) == *old(self),
            },
    {
        match event {
            Event::Key(key) => self.handle_key(key),
            Event::Mouse => {},
            Event::Resize(_, _) => {},
            Event::Tick => {},
        }
    }

    /// Handles one key press: Ctrl+C always stops the loop; anything
    /// else goes to the current view, whose action is then applied.
    fn handle_key(&mut self, key: KeyPress)
        ensures
            key_event_spec(*old(self), key, *final(self)),
    {
        if key.ctrl && matches!(key.code, Key::Char('c')) {
            self.running = false;
            return ;
        }
        let action = self.view_manager.handle_key(key);
        let ghost mid_vm = self.view_manager;
        let ghost mid_app = *self;
        self.handle_action(action);
        proof {
            assert(mid_key(old(self).view_manager, key, mid_vm, action));
            assert(mid_app == (App { view_manager: mid_vm, ..*old(self) }));
        }
    }

    /// Applies one view action to the stack; see `action_spec`.
    fn handle_action(&mut self, action: Action)
        ensures
            action_spec(*old(self), action, *final(self)),
    {
        match action {
            Action::Quit => {
                self.running = false;
            },
            Action::SwitchView(_) => {},
            Action::PushView(view_type) => {
                match view_type {
                    ViewType::Status => {
                        let repo = match &self.repo {
                            Some(r) => Some(r.clone()),
                            None => None,
                        };
                        match repo {
                            Some(r) => {
                                let status_view = StatusView::new(r);
                                self.view_manager.push(AnyView::Status(status_view));
                            },
                            None => {},
                        }
                    },
                    ViewType::Help => {
                        let help_view = HelpView::new();
                        self.view_manager.push(AnyView::Help(help_view));
                    },
                    _ => {},
                }
            },
            Action::PopView => {
                let _ = self.view_manager.pop();
            },
            Action::OpenDiff { repo, commit_id, summary } => {
                let diff_view = DiffView::new(repo, commit_id, summary, self.colors);
                self.view_manager.push(AnyView::Diff(diff_view));
            },
            Action::OpenStagedDiff { repo, path } => {
                let diff_view = DiffView::new_staged(repo, path, self.colors);
                self.view_manager.push(AnyView::Diff(diff_view));
            },
            Action::OpenUnstagedDiff { repo, path } => {
                let diff_view = DiffView::new_unstaged(repo, path, self.colors);
                self.view_manager.push(AnyView::Diff(diff_view));
            },
            Action::NoOp => {},
        }
    }

    /// Runs the current view's per-frame update: the top view drains its
    /// ready results as its own update relation says, the views below it
    /// are untouched, and nothing else of the shell changes.
    pub fn update(&mut self)
        ensures
            final(self).running == old(self).running,
            final(self).repo == old(self).repo,
            final(self).branch == old(self).branch,
            final(self).error == old(self).error,
            final(self).colors == old(self).colors,
            old(self).view_manager.view_stack@.len() == 0 ==> *final(self) == *old(self),
            old(self).view_manager.view_stack@.len() > 0 ==> {
                &&& final(self).view_manager.view_stack@.len()
                    == old(self).view_manager.view_stack@.len()
                &&& forall|i: int|
                    0 <= i < old(self).view_manager.view_stack@.len() - 1
                        ==> final(self).view_manager.view_stack@[i]
                        == old(self).view_manager.view_stack@[i]
                &&& updated_from(
                    final(self).view_manager.view_stack@.last(),
                    old(self).view_manager.view_stack@.last(),
                )
            },
    {
        self.view_manager.update();
    }
}

/// What one key press does to the shell: Ctrl+C stops the loop; with an
/// empty stack any other key does nothing; otherwise the top view
/// handles the key and the action it returns is applied to the stack.
pub open spec fn key_event_spec(pre: App, key: KeyPress, post: App) -> bool {
    if key.ctrl && key.code == Key::Char('c') {
        post == (App { running: false, ..pre })
    } else {
        exists|action: Action, mid: ViewManager|
            {
                &&& #[trigger] mid_key(pre.view_manager, key, mid, action)
                &&& action_spec(
                    (App { view_manager: mid, ..pre }),
                    action,
                    post,
                )
            }
    }
}

/// The stack after the top view handled the key, before the action is
/// applied: the views below the top are unchanged.
pub open spec fn mid_key(pre: ViewManager, key: KeyPress, mid: ViewManager, action: Action)
    -> bool {
    if pre.view_stack@.len() == 0 {
        mid == pre && action == Action::NoOp
    } else {
        &&& mid.view_stack@.len() == pre.view_stack@.len()
        &&& forall|i: int|
            0 <= i < pre.view_stack@.len() - 1 ==> mid.view_stack@[i] == pre.view_stack@[i]
        &&& crate::views::manager::key_spec_of(
            pre.view_stack@.last(),
            key,
            mid.view_stack@.last(),
            action,
        )
    }
}

impl Default for App {
    fn default() -> (r: Self)
        ensures
            r.running == true,
            r.view_stack_len_spec() == 0,
            r.repo is None,
    {
        App::new()
    }
}

impl App {
    /// The number of views on the stack.
    pub open spec fn view_stack_len_spec(&self) -> nat {
        self.view_manager.view_stack@.len()
    }
}

} // verus!
