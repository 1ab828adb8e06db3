use vstd::prelude::*;

verus! {

/// The column the process table is sorted by.
#[derive(Clone, Copy, Debug, PartialEq, Eq)]
pub enum ProcessesSortBy {
    CPU,
    MEM,
}

impl ProcessesSortBy {
    /// The key a table starts with.
    pub fn default() -> (key: ProcessesSortBy)
        ensures
            key is CPU,
    {
        Self::CPU
    }

    /// The other key.
    pub open spec fn toggled(self) -> ProcessesSortBy {
        match self {
            ProcessesSortBy::CPU => ProcessesSortBy::MEM,
            ProcessesSortBy::MEM => ProcessesSortBy::CPU,
        }
    }
}

/// The process table's interaction state. `selected` is the row the cursor is
/// on, counted from zero in the list that was visible when it was set; `None`
/// says that the table is inactive. It is not held against the list's length
/// here, so it may lie past the end of a list that shrank since.
#[derive(Clone, Copy, Debug, PartialEq, Eq)]
pub struct ProcessTableState {
    pub sort_by: ProcessesSortBy,
    pub show_threads: bool,
    pub selected: Option<usize>,
}

impl ProcessTableState {
    pub open spec fn spec_is_active(&self) -> bool {
        self.selected is Some
    }

    pub open spec fn spec_selected_row(&self) -> Option<usize> {
        self.selected
    }

    pub open spec fn activated(self) -> Self {
        ProcessTableState { selected: Some(0), ..self }
    }

    pub open spec fn deactivated(self) -> Self {
        ProcessTableState { selected: None, ..self }
    }

    pub open spec fn row_selected(self, row: usize) -> Self {
        ProcessTableState { selected: Some(row), ..self }
    }

    /// One row down; onto the first row from an inactive table. The greatest
    /// index there is has no row below it.
    pub open spec fn moved_down(self) -> Self {
        match self.selected {
            None => self.activated(),
            Some(s) => if s < usize::MAX {
                self.row_selected((s + 1) as usize)
            } else {
                self
            },
        }
    }

    /// One row up; onto the first row from an inactive table, and nowhere
    /// from the first row.
    pub open spec fn moved_up(self) -> Self {
        match self.selected {
            None => self.activated(),
            Some(s) => if s == 0 {
                self
            } else {
                self.row_selected((s - 1) as usize)
            },
        }
    }

    pub open spec fn sort_toggled(self) -> Self {
        ProcessTableState { sort_by: self.sort_by.toggled(), ..self }
    }

    pub open spec fn threads_toggled(self) -> Self {
        ProcessTableState { show_threads: !self.show_threads, ..self }
    }

    /// The state a table starts in: sorted by CPU, threads hidden, inactive.
    pub fn default() -> (state: ProcessTableState)
        ensures
            state.sort_by is CPU,
            !state.show_threads,
            state.selected is None,
    {
        ProcessTableState { sort_by: ProcessesSortBy::default(), show_threads: false, selected: None }
    }

    /// Whether a row is selected.
    #[verifier::when_used_as_spec(spec_is_active)]
    pub fn is_active(&self) -> (b: bool)
        ensures
            b == self.spec_is_active(),
    {
        self.selected.is_some()
    }

    /// Selects the first row.
    pub fn activate(&mut self)
        ensures
            *final(self) == old(self).activated(),
    {
        self.selected = Some(0);
    }

    /// Drops the selection.
    pub fn deactivate(&mut self)
        ensures
            *final(self) == old(self).deactivated(),
    {
        self.selected = None;
    }

    /// Selects the row `row`.
    pub fn select_row(&mut self, row: usize)
        ensures
            *final(self) == old(self).row_selected(row),
    {
        self.selected = Some(row);
    }

    /// Moves the selection one row down.
    pub fn move_down(&mut self)
        ensures
            *final(self) == old(self).moved_down(),
    {
        match self.selected {
            None => self.activate(),
            Some(s) => {
                if s < usize::MAX {
                    self.selected = Some(s + 1);
                }
            },
        }
    }

    /// Moves the selection one row up.
    pub fn move_up(&mut self)
        ensures
            *final(self) == old(self).moved_up(),
    {
        match self.selected {
            None => self.activate(),
            Some(s) => {
                if s > 0 {
                    self.selected = Some(s - 1);
                }
            },
        }
    }

    /// The selected row, if the table is active.
    #[verifier::when_used_as_spec(spec_selected_row)]
    pub fn selected_row(&self) -> (row: Option<usize>)
        ensures
            row == self.spec_selected_row(),
    {
        self.selected
    }

    /// Switches the sort key to the other one.
    pub fn toggle_sort_by(&mut self)
        ensures
            *final(self) == old(self).sort_toggled(),
    {
        self.sort_by = match self.sort_by {
            ProcessesSortBy::CPU => ProcessesSortBy::MEM,
            ProcessesSortBy::MEM => ProcessesSortBy::CPU,
        }
    }

    /// Shows threads if they were hidden, hides them if they were shown.
    pub fn toggle_show_threads(&mut self)
        ensures
            *final(self) == old(self).threads_toggled(),
    {
        self.show_threads = !self.show_threads;
    }
}

/// Toggling the sort key twice, or the threads' visibility twice, gives the
/// state back as it was.
pub proof fn lemma_toggle_twice_is_identity(state: ProcessTableState)
    ensures
        state.sort_toggled().sort_toggled() == state,
        state.threads_toggled().threads_toggled() == state,
{
}

} // verus!
