//! The view stack: an ordered sequence of owned views of which the last
//! is current. Pushing deactivates the old top and activates the new one;
//! popping is refused on the last view, so the stack can never become
//! empty once it holds a view.

use vstd::prelude::*;
use crate::views::diff_view::{diff_activated, diff_key_spec, diff_updated, DiffView};
use crate::views::help_view::{help_key_spec, HelpView};
use crate::views::main_view::{main_activated, main_key_spec, main_updated, MainView};
use crate::views::status_view::{status_activated, status_key_spec, status_updated, StatusView};
use crate::views::view::{Action, KeyPress, ViewType};

verus! {

/// One owned view on the stack.
#[derive(Debug)]
pub enum AnyView {
    Main(MainView),
    Diff(DiffView),
    Status(StatusView),
    Help(HelpView),
}

/// Which kind of view this is.
pub open spec fn view_type_of(v: AnyView) -> ViewType {
    match v {
        AnyView::Main(_) => ViewType::Main,
        AnyView::Diff(_) => ViewType::Diff,
        AnyView::Status(_) => ViewType::Status,
        AnyView::Help(_) => ViewType::Help,
    }
}

/// The title a view shows in the status bar.
pub open spec fn title_spec(v: AnyView) -> Seq<char> {
    match v {
        AnyView::Main(_) => "Main"@,
        AnyView::Diff(_) => "Diff"@,
        AnyView::Status(_) => "Status"@,
        AnyView::Help(_) => "Help"@,
    }
}

/// The activation relation, by view kind: a view of a different kind, or
/// any change activation could not have made, is ruled out.
pub open spec fn activated_from(post: AnyView, pre: AnyView) -> bool {
    match (post, pre) {
        (AnyView::Main(p), AnyView::Main(q)) => main_activated(q, p),
        (AnyView::Diff(p), AnyView::Diff(q)) => diff_activated(q, p),
        (AnyView::Status(p), AnyView::Status(q)) => status_activated(q, p),
        (AnyView::Help(p), AnyView::Help(q)) => p == q,
        _ => false,
    }
}

/// The per-frame update relation, by view kind.
pub open spec fn updated_from(post: AnyView, pre: AnyView) -> bool {
    match (post, pre) {
        (AnyView::Main(p), AnyView::Main(q)) => main_updated(q, p),
        (AnyView::Diff(p), AnyView::Diff(q)) => diff_updated(q, p),
        (AnyView::Status(p), AnyView::Status(q)) => status_updated(q, p),
        (AnyView::Help(p), AnyView::Help(q)) => p == q,
        _ => false,
    }
}

/// The key-handling relation, by view kind.
pub open spec fn key_spec_of(pre: AnyView, key: KeyPress, post: AnyView, r: Action) -> bool {
    match (post, pre) {
        (AnyView::Main(p), AnyView::Main(q)) => main_key_spec(q, key, p, r),
        (AnyView::Diff(p), AnyView::Diff(q)) => diff_key_spec(q, key, p, r),
        (AnyView::Status(p), AnyView::Status(q)) => status_key_spec(q, key, p, r),
        (AnyView::Help(p), AnyView::Help(q)) => help_key_spec(q, key, p, r),
        _ => false,
    }
}

impl AnyView {
    /// Activates the view (it becomes the top of the stack).
    pub fn on_activate(&mut self)
        ensures
            activated_from(*final(self), *old(self)),
    {
        match self {
            AnyView::Main(v) => v.on_activate(),
            AnyView::Diff(v) => v.on_activate(),
            AnyView::Status(v) => v.on_activate(),
            AnyView::Help(_) => {},
        }
    }

    /// Deactivates the view (another view covers it). None of the views
    /// reacts to this; the hook keeps the lifecycle explicit.
    pub fn on_deactivate(&mut self)
        ensures
            *final(self) == *old(self),
    {
    }

    /// Handles one key press in whichever view this is.
    pub fn handle_key(&mut self, key: KeyPress) -> (r: Action)
        ensures
            key_spec_of(*old(self), key, *final(self), r),
    {
        match self {
            AnyView::Main(v) => v.handle_key(key),
            AnyView::Diff(v) => v.handle_key(key),
            AnyView::Status(v) => v.handle_key(key),
            AnyView::Help(v) => v.handle_key(key),
        }
    }

    /// Runs one per-frame update in whichever view this is.
    pub fn update(&mut self)
        ensures
            updated_from(*final(self), *old(self)),
    {
        match self {
            AnyView::Main(v) => v.update(),
            AnyView::Diff(v) => v.update(),
            AnyView::Status(v) => v.update(),
            AnyView::Help(v) => v.update(),
        }
    }

    /// The view's title, for the status bar.
    pub fn title(&self) -> (r: &'static str)
        ensures
            r@ == title_spec(*self),
    {
        match self {
            AnyView::Main(v) => v.title(),
            AnyView::Diff(v) => v.title(),
            AnyView::Status(v) => v.title(),
            AnyView::Help(v) => v.title(),
        }
    }
}

/// The error pop returns when the stack holds at most one view.
#[derive(Debug, Clone, Copy, PartialEq, Eq, Structural)]
pub enum StackError {
    EmptyStack,
}

/// Manages a stack of views and handles view switching.
#[derive(Debug)]
pub struct ViewManager {
    pub view_stack: Vec<AnyView>,
}

impl ViewManager {
    /// An empty stack.
    pub fn new() -> (r: Self)
        ensures
            r.view_stack@.len() == 0,
    {
        ViewManager { view_stack: Vec::new() }
    }

    /// Pushes a view: the old top is deactivated (left unchanged), the
    /// new view is appended and activated. The depth grows by one.
    pub fn push(&mut self, view: AnyView)
        ensures
            final(self).view_stack@.len() == old(self).view_stack@.len() + 1,
            forall|i: int|
                0 <= i < old(self).view_stack@.len() ==> final(self).view_stack@[i] == old(
                    self,
                ).view_stack@[i],
            activated_from(final(self).view_stack@.last(), view),
    {
        let n = self.view_stack.len();
        if n > 0 {
            let current = &mut self.view_stack[n - 1];
            current.on_deactivate();
        }
        self.view_stack.push(view);
        let m = self.view_stack.len();
        let new_top = &mut self.view_stack[m - 1];
        new_top.on_activate();
    }

    /// Pops the current view. With at most one view on the stack the pop
    /// is refused with `EmptyStack` and nothing changes — the depth never
    /// drops below one. Otherwise the top is removed and dropped and the
    /// uncovered view is activated; the depth shrinks by one.
    pub fn pop(&mut self) -> (r: Result<(), StackError>)
        ensures
            old(self).view_stack@.len() <= 1 ==> r == Result::<(), StackError>::Err(
                StackError::EmptyStack,
            ) && *final(self) == *old(self),
            old(self).view_stack@.len() > 1 ==> {
                &&& r is Ok
                &&& final(self).view_stack@.len() == old(self).view_stack@.len() - 1
                &&& forall|i: int|
                    0 <= i < old(self).view_stack@.len() - 2 ==> final(self).view_stack@[i] == old(
                        self,
                    ).view_stack@[i]
                &&& activated_from(
                    final(self).view_stack@.last(),
                    old(self).view_stack@[old(self).view_stack@.len() - 2],
                )
            },
    {
        if self.view_stack.len() <= 1 {
            return Err(StackError::EmptyStack);
        }
        let mut old_view = self.view_stack.pop().unwrap();
        old_view.on_deactivate();
        let n = self.view_stack.len();
        let current = &mut self.view_stack[n - 1];
        current.on_activate();
        Ok(())
    }

    /// Replaces the current view: the old top (if any) is deactivated and
    /// discarded, the new view is appended and activated, and the stack
    /// is never momentarily empty. The depth does not change (an empty
    /// stack becomes a stack of one).
    pub fn switch(&mut self, view: AnyView)
        ensures
            old(self).view_stack@.len() == 0 ==> {
                &&& final(self).view_stack@.len() == 1
                &&& activated_from(final(self).view_stack@.last(), view)
            },
            old(self).view_stack@.len() > 0 ==> {
                &&& final(self).view_stack@.len() == old(self).view_stack@.len()
                &&& forall|i: int|
                    0 <= i < old(self).view_stack@.len() - 1 ==> final(self).view_stack@[i] == old(
                        self,
                    ).view_stack@[i]
                &&& activated_from(final(self).view_stack@.last(), view)
            },
    {
        let n = self.view_stack.len();
        if n > 0 {
            let mut old_view = self.view_stack.pop().unwrap();
            old_view.on_deactivate();
        }
        self.view_stack.push(view);
        let m = self.view_stack.len();
        let new_top = &mut self.view_stack[m - 1];
        new_top.on_activate();
    }

    /// The current view, if the stack holds one.
    pub fn current(&self) -> (r: Option<&AnyView>)
        ensures
            match r {
                Some(v) => self.view_stack@.len() > 0 && *v == self.view_stack@.last(),
                None => self.view_stack@.len() == 0,
            },
    {
        let n = self.view_stack.len();
        if n == 0 {
            None
        } else {
            Some(&self.view_stack[n - 1])
        }
    }

    /// Whether the stack holds no view.
    pub fn is_empty(&self) -> (r: bool)
        ensures
            r == (self.view_stack@.len() == 0),
    {
        self.view_stack.len() == 0
    }

    /// The number of views on the stack.
    pub fn len(&self) -> (r: usize)
        ensures
            r == self.view_stack@.len(),
    {
        self.view_stack.len()
    }

    /// Delegates one key press to the current view; with an empty stack
    /// nothing happens.
    pub fn handle_key(&mut self, key: KeyPress) -> (r: Action)
        ensures
            old(self).view_stack@.len() == 0 ==> *final(self) == *old(self) && r == Action::NoOp,
            old(self).view_stack@.len() > 0 ==> {
                &&& final(self).view_stack@.len() == old(self).view_stack@.len()
                &&& forall|i: int|
                    0 <= i < old(self).view_stack@.len() - 1 ==> final(self).view_stack@[i] == old(
                        self,
                    ).view_stack@[i]
                &&& key_spec_of(
                    old(self).view_stack@.last(),
                    key,
                    final(self).view_stack@.last(),
                    r,
                )
            },
    {
        let n = self.view_stack.len();
        if n == 0 {
            return Action::NoOp;
        }
        let top = &mut self.view_stack[n - 1];
        top.handle_key(key)
    }

    /// Runs the current view's per-frame update; with an empty stack
    /// nothing happens.
    pub fn update(&mut self)
        ensures
            old(self).view_stack@.len() == 0 ==> *final(self) == *old(self),
            old(self).view_stack@.len() > 0 ==> {
                &&& final(self).view_stack@.len() == old(self).view_stack@.len()
                &&& forall|i: int|
                    0 <= i < old(self).view_stack@.len() - 1 ==> final(self).view_stack@[i] == old(
                        self,
                    ).view_stack@[i]
                &&& updated_from(final(self).view_stack@.last(), old(self).view_stack@.last())
            },
    {
        let n = self.view_stack.len();
        if n == 0 {
            return ;
        }
        let top = &mut self.view_stack[n - 1];
        top.update();
    }

    /// The title of the current view, or the application name with an
    /// empty stack.
    pub fn current_title(&self) -> (r: &str)
        ensures
            self.view_stack@.len() > 0 ==> r@ == title_spec(self.view_stack@.last()),
            self.view_stack@.len() == 0 ==> r@ == "rust-tig"@,
    {
        let n = self.view_stack.len();
        if n == 0 {
            "rust-tig"
        } else {
            self.view_stack[n - 1].title()
        }
    }
}

impl Default for ViewManager {
    fn default() -> (r: Self)
        ensures
            r.view_stack@.len() == 0,
    {
        ViewManager::new()
    }
}

/// A stack operation, as the depth model sees it.
#[derive(Debug, Clone, Copy, PartialEq, Eq, Structural)]
pub enum StackOp {
    Push,
    Pop,
}

/// The stack depth after a sequence of operations: a push always grows
/// the depth by one, and a pop shrinks it by one except at depth one or
/// zero, where it is refused — exactly the transitions `push` and `pop`
/// make on the stack itself.
pub open spec fn depth_after(init: nat, ops: Seq<StackOp>) -> nat
    decreases ops.len(),
{
    if ops.len() == 0 {
        init
    } else {
        let d = depth_after(init, ops.drop_last());
        match ops.last() {
            StackOp::Push => d + 1,
            StackOp::Pop => if d <= 1 {
                d
            } else {
                (d - 1) as nat
            },
        }
    }
}

/// For every sequence of push and pop operations on a stack that holds
/// at least one view, the depth never drops below one: a pop at depth
/// one is refused and leaves the depth unchanged.
pub proof fn lemma_stack_depth_never_below_one(init: nat, ops: Seq<StackOp>)
    requires
        init >= 1,
    ensures
        depth_after(init, ops) >= 1,
    decreases ops.len(),
{
    if ops.len() > 0 {
        lemma_stack_depth_never_below_one(init, ops.drop_last());
    }
}

} // verus!
