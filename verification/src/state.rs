//! The selection state of the branch list and its transitions.
//!
//! `App` owns the branch names, the cursor, the confirmed selection and the
//! exit flag. Each operation is described by a function of `AppView`, the
//! mathematical value an `App` stands for.

use vstd::prelude::*;

verus! {

/// The value an [`App`] stands for.
#[verifier::ext_equal]
pub struct AppView {
    /// The branch names, in the order in which they were loaded.
    pub branches: Seq<Seq<char>>,
    /// The highlighted row; zero while there is no row to highlight.
    pub cursor_index: nat,
    /// The row that was last confirmed, if any was.
    pub selected_index: Option<nat>,
    /// Whether the user has asked to leave.
    pub exit_requested: bool,
}

impl AppView {
    /// The cursor points at a row, or rests at zero when there is none, and a
    /// confirmed selection points at a row.
    pub open spec fn wf(self) -> bool {
        &&& self.branches.len() == 0 ==> self.cursor_index == 0
        &&& self.branches.len() > 0 ==> self.cursor_index < self.branches.len()
        &&& self.selected_index matches Some(row) ==> row < self.branches.len()
    }

    /// The state right after `branch_names` were loaded.
    pub open spec fn loaded(branch_names: Seq<Seq<char>>) -> AppView {
        AppView {
            branches: branch_names,
            cursor_index: 0,
            selected_index: None,
            exit_requested: false,
        }
    }

    /// The cursor one row further down, or on the first row if it was on the
    /// last one. Nothing moves while there are no rows.
    pub open spec fn move_cursor_next(self) -> AppView {
        if self.branches.len() == 0 {
            self
        } else if self.cursor_index + 1 >= self.branches.len() {
            AppView { cursor_index: 0, ..self }
        } else {
            AppView { cursor_index: self.cursor_index + 1, ..self }
        }
    }

    /// The cursor one row further up, or on the last row if it was on the
    /// first one. Nothing moves while there are no rows.
    pub open spec fn move_cursor_previous(self) -> AppView {
        if self.branches.len() == 0 {
            self
        } else if self.cursor_index == 0 {
            AppView { cursor_index: (self.branches.len() - 1) as nat, ..self }
        } else {
            AppView { cursor_index: (self.cursor_index - 1) as nat, ..self }
        }
    }

    /// The row under the cursor becomes the confirmed selection. Nothing is
    /// confirmed while there are no rows.
    pub open spec fn confirm_selection(self) -> AppView {
        if self.branches.len() == 0 {
            self
        } else {
            AppView { selected_index: Some(self.cursor_index), ..self }
        }
    }

    /// The exit flag is raised; everything else stays.
    pub open spec fn exit(self) -> AppView {
        AppView { exit_requested: true, ..self }
    }
}

/// The state of the dashboard: the branches of the repository, the row under
/// the cursor, the row the user confirmed, and whether the user asked to
/// leave.
#[derive(Debug)]
pub struct App {
    branches: Vec<String>,
    cursor_index: usize,
    selected_index: Option<usize>,
    exit_requested: bool,
}

impl View for App {
    type V = AppView;

    closed spec fn view(&self) -> AppView {
        AppView {
            branches: self.branches.deep_view(),
            cursor_index: self.cursor_index as nat,
            selected_index: match self.selected_index {
                Some(row) => Some(row as nat),
                None => None,
            },
            exit_requested: self.exit_requested,
        }
    }
}

impl App {
    /// Holds of every `App`: its value is well formed.
    #[verifier::type_invariant]
    pub open spec fn valid(&self) -> bool {
        self@.wf()
    }

    /// Creates the state for a repository whose branches are `branch_names`,
    /// in this order: the cursor is on the first row, nothing is selected and
    /// no exit was requested.
    pub fn init(branch_names: Vec<String>) -> (app: App)
        ensures
            app@ == AppView::loaded(branch_names.deep_view()),
            app@.wf(),
    {
        App { branches: branch_names, cursor_index: 0, selected_index: None, exit_requested: false }
    }

    /// Moves the cursor to the next branch, from the last one back to the
    /// first. Does nothing when there are no branches.
    pub fn move_cursor_next(&mut self)
        ensures
            final(self)@ == old(self)@.move_cursor_next(),
            final(self)@.wf(),
            old(self)@.branches.len() == 0 ==> final(self)@ == old(self)@,
            final(self)@.selected_index == old(self)@.selected_index,
            final(self)@.exit_requested == old(self)@.exit_requested,
    {
        proof {
            use_type_invariant(&*self);
        }
        if self.branches.len() == 0 {
            return ;
        }
        if self.cursor_index + 1 >= self.branches.len() {
            self.cursor_index = 0;
        } else {
            self.cursor_index = self.cursor_index + 1;
        }
    }

    /// Moves the cursor to the previous branch, from the first one on to the
    /// last. Does nothing when there are no branches.
    pub fn move_cursor_previous(&mut self)
        ensures
            final(self)@ == old(self)@.move_cursor_previous(),
            final(self)@.wf(),
            old(self)@.branches.len() == 0 ==> final(self)@ == old(self)@,
            final(self)@.selected_index == old(self)@.selected_index,
            final(self)@.exit_requested == old(self)@.exit_requested,
    {
        proof {
            use_type_invariant(&*self);
        }
        if self.branches.len() == 0 {
            return ;
        }
        if self.cursor_index == 0 {
            self.cursor_index = self.branches.len() - 1;
        } else {
            self.cursor_index = self.cursor_index - 1;
        }
    }

    /// Confirms the branch under the cursor as the selection. Does nothing
    /// when there are no branches.
    pub fn confirm_selection(&mut self)
        ensures
            final(self)@ == old(self)@.confirm_selection(),
            final(self)@.wf(),
            old(self)@.branches.len() == 0 ==> final(self)@ == old(self)@,
            old(self)@.branches.len() > 0 ==> final(self)@.selected_index == Some(
                old(self)@.cursor_index,
            ),
            final(self)@.cursor_index == old(self)@.cursor_index,
            final(self)@.exit_requested == old(self)@.exit_requested,
    {
        proof {
            use_type_invariant(&*self);
        }
        if self.branches.len() == 0 {
            return ;
        }
        self.selected_index = Some(self.cursor_index);
    }

    /// Asks for the dashboard to be left. Asking again changes nothing.
    pub fn exit(&mut self)
        ensures
            final(self)@ == old(self)@.exit(),
            final(self)@.wf(),
            final(self)@.exit_requested,
            old(self)@.exit_requested ==> final(self)@ == old(self)@,
    {
        proof {
            use_type_invariant(&*self);
        }
        self.exit_requested = true;
    }

    /// The branch names, in the order in which they were loaded.
    pub fn branches(&self) -> (names: &Vec<String>)
        ensures
            names.deep_view() == self@.branches,
    {
        &self.branches
    }

    /// The row under the cursor; zero when there are no branches.
    pub fn cursor_index(&self) -> (row: usize)
        ensures
            row == self@.cursor_index,
    {
        self.cursor_index
    }

    /// The row that was last confirmed, or `None` if none was yet.
    pub fn selected_index(&self) -> (row: Option<usize>)
        ensures
            match row {
                Some(confirmed) => self@.selected_index == Some(confirmed as nat),
                None => self@.selected_index is None,
            },
    {
        self.selected_index
    }

    /// Whether the user has asked to leave.
    pub fn exit_requested(&self) -> (requested: bool)
        ensures
            requested == self@.exit_requested,
    {
        self.exit_requested
    }
}

impl Default for App {
    /// The state for a repository without branches.
    fn default() -> (app: App)
        ensures
            app@ == AppView::loaded(Seq::empty()),
    {
        App { branches: Vec::new(), cursor_index: 0, selected_index: None, exit_requested: false }
    }
}

impl AppView {
    /// The state after the cursor was moved to the next branch `times` times
    /// in a row.
    pub open spec fn move_cursor_next_times(self, times: nat) -> AppView
        decreases times,
    {
        if times == 0 {
            self
        } else {
            self.move_cursor_next_times((times - 1) as nat).move_cursor_next()
        }
    }
}

/// Every operation on the state keeps a well-formed state well formed.
pub proof fn lemma_operations_preserve_wf(state: AppView)
    requires
        state.wf(),
    ensures
        state.move_cursor_next().wf(),
        state.move_cursor_previous().wf(),
        state.confirm_selection().wf(),
        state.exit().wf(),
{
}

proof fn lemma_next_times_position(state: AppView, times: nat)
    requires
        state.wf(),
        state.branches.len() > 0,
        times <= state.branches.len(),
    ensures
        state.move_cursor_next_times(times) == (AppView {
            cursor_index: if state.cursor_index + times < state.branches.len() {
                state.cursor_index + times
            } else {
                (state.cursor_index + times - state.branches.len()) as nat
            },
            ..state
        }),
    decreases times,
{
    if times > 0 {
        lemma_next_times_position(state, (times - 1) as nat);
    }
}

/// Moving the cursor to the next branch as many times as there are branches
/// brings it back to where it was, and leaves everything else as it was.
pub proof fn lemma_next_full_cycle(state: AppView)
    requires
        state.wf(),
    ensures
        state.move_cursor_next_times(state.branches.len()) == state,
{
    if state.branches.len() > 0 {
        lemma_next_times_position(state, state.branches.len());
    }
}

/// Moving the cursor to the previous branch undoes moving it to the next
/// one, and the other way round.
pub proof fn lemma_previous_inverts_next(state: AppView)
    requires
        state.wf(),
    ensures
        state.move_cursor_next().move_cursor_previous() == state,
        state.move_cursor_previous().move_cursor_next() == state,
{
}

/// Without branches neither the cursor movements nor the confirmation
/// change anything: the cursor stays at zero and nothing is selected that
/// was not selected before.
pub proof fn lemma_empty_list_is_inert(state: AppView)
    requires
        state.branches.len() == 0,
    ensures
        state.move_cursor_next() == state,
        state.move_cursor_previous() == state,
        state.confirm_selection() == state,
{
}

/// A confirmed selection survives every cursor movement: after confirming
/// on a row, moving the cursor in either direction leaves that row selected.
pub proof fn lemma_moves_keep_selection(state: AppView)
    ensures
        state.move_cursor_next().selected_index == state.selected_index,
        state.move_cursor_previous().selected_index == state.selected_index,
        state.branches.len() > 0 ==> state.confirm_selection().move_cursor_next().selected_index
            == Some(state.cursor_index),
        state.branches.len() > 0
            ==> state.confirm_selection().move_cursor_previous().selected_index == Some(
            state.cursor_index,
        ),
{
}

} // verus!
