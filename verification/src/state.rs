use crate::event::{FilterAction, NormalAction};
use crate::widgets::state::process_table::ProcessTableState;
use vstd::prelude::*;

verus! {

/// Whether keys browse the table or go into the filter text.
#[derive(Clone, Copy, Debug, PartialEq, Eq)]
pub enum Mode {
    Normal,
    Filter,
}

/// The interaction state as plain values.
pub struct StateView {
    pub process_table: ProcessTableState,
    pub mode: Mode,
    pub filter_by: Seq<char>,
}

impl StateView {
    /// The filter text in force: the text, while it is being typed; none in
    /// normal mode, where the text is kept but not applied.
    pub open spec fn active_filter(self) -> Option<Seq<char>> {
        match self.mode {
            Mode::Filter => Some(self.filter_by),
            Mode::Normal => None,
        }
    }

    pub open spec fn with_table(self, process_table: ProcessTableState) -> StateView {
        StateView { process_table, ..self }
    }

    pub open spec fn with_mode(self, mode: Mode) -> StateView {
        StateView { mode, ..self }
    }

    /// The state after an action of normal mode, where the visible list has
    /// `visible_count` rows. Whatever changes the visible list's order or
    /// length drops the selection, since the row's number then means nothing.
    /// The last row of an empty list is taken to be row zero.
    pub open spec fn after_normal(self, action: NormalAction, visible_count: nat) -> StateView {
        match action {
            NormalAction::Quit => self,
            NormalAction::ToggleThreads => self.with_table(
                self.process_table.threads_toggled().deactivated(),
            ),
            NormalAction::MoveDown => self.with_table(self.process_table.moved_down()),
            NormalAction::MoveUp => self.with_table(self.process_table.moved_up()),
            NormalAction::EnterFilter => self.with_mode(Mode::Filter),
            NormalAction::Deactivate => self.with_table(self.process_table.deactivated()),
            NormalAction::ToggleSort => self.with_table(
                self.process_table.sort_toggled().deactivated(),
            ),
            NormalAction::Kill => self.with_table(self.process_table.deactivated()),
            NormalAction::GoToLast => self.with_table(
                self.process_table.row_selected(
                    if visible_count == 0 {
                        0usize
                    } else {
                        (visible_count - 1) as usize
                    },
                ),
            ),
            NormalAction::Ignore => self,
        }
    }

    /// The state after an action of filter mode. Leaving keeps the text. In
    /// normal mode there is no such action, and the text stays as it is.
    pub open spec fn after_filter(self, action: FilterAction) -> StateView {
        match self.mode {
            Mode::Normal => self,
            Mode::Filter => match action {
                FilterAction::Leave => self.with_mode(Mode::Normal),
                FilterAction::Type(c) => StateView { filter_by: self.filter_by.push(c), ..self },
                FilterAction::Erase => StateView {
                    filter_by: if self.filter_by.len() > 0 {
                        self.filter_by.drop_last()
                    } else {
                        self.filter_by
                    },
                    ..self
                },
                FilterAction::Ignore => self,
            },
        }
    }
}

/// The interaction state: the mode, the filter text and the process table's
/// state. It does no input or output. The filter text changes in filter mode
/// only.
#[derive(Debug, PartialEq, Eq)]
pub struct State {
    process_table: ProcessTableState,
    mode: Mode,
    filter_by: String,
}

impl View for State {
    type V = StateView;

    closed spec fn view(&self) -> StateView {
        StateView {
            process_table: self.process_table,
            mode: self.mode,
            filter_by: self.filter_by@,
        }
    }
}

impl State {
    /// Normal mode, no filter text, and the table as it starts.
    pub fn new() -> (state: State)
        ensures
            state@.mode is Normal,
            state@.filter_by == Seq::<char>::empty(),
            state@.process_table.sort_by is CPU,
            !state@.process_table.show_threads,
            state@.process_table.selected is None,
    {
        State {
            process_table: ProcessTableState::default(),
            mode: Mode::Normal,
            filter_by: String::new(),
        }
    }

    /// The process table's state.
    pub fn process_table(&self) -> (table: &ProcessTableState)
        ensures
            *table == self@.process_table,
    {
        &self.process_table
    }

    /// The mode the dashboard is in.
    pub fn mode(&self) -> (mode: Mode)
        ensures
            mode == self@.mode,
    {
        self.mode
    }

    /// The filter text, whether it is in force or not.
    pub fn filter_by(&self) -> (text: &str)
        ensures
            text@ == self@.filter_by,
    {
        self.filter_by.as_str()
    }

    /// Lets keys go into the filter text from now on.
    pub fn enter_filter_mode(&mut self)
        ensures
            final(self)@ == old(self)@.with_mode(Mode::Filter),
    {
        self.mode = Mode::Filter;
    }

    /// Goes back to normal mode. The filter text is kept.
    pub fn exit_filter_mode(&mut self)
        ensures
            final(self)@ == old(self)@.with_mode(Mode::Normal),
    {
        self.mode = Mode::Normal;
    }

    /// Whether a row of the table is selected.
    pub fn table_is_active(&self) -> (b: bool)
        ensures
            b == self@.process_table.is_active(),
    {
        self.process_table.is_active()
    }

    /// Drops the selection.
    pub fn deactivate_table(&mut self)
        ensures
            final(self)@ == old(self)@.with_table(old(self)@.process_table.deactivated()),
    {
        self.process_table.deactivate()
    }

    /// Moves the selection one row down.
    pub fn move_down(&mut self)
        ensures
            final(self)@ == old(self)@.with_table(old(self)@.process_table.moved_down()),
    {
        self.process_table.move_down()
    }

    /// Moves the selection one row up.
    pub fn move_up(&mut self)
        ensures
            final(self)@ == old(self)@.with_table(old(self)@.process_table.moved_up()),
    {
        self.process_table.move_up()
    }

    /// The selected row, if the table is active.
    pub fn selected_row(&self) -> (row: Option<usize>)
        ensures
            row == self@.process_table.selected,
    {
        self.process_table.selected_row()
    }

    /// Selects the row `row`.
    pub fn select_row(&mut self, row: usize)
        ensures
            final(self)@ == old(self)@.with_table(old(self)@.process_table.row_selected(row)),
    {
        self.process_table.select_row(row)
    }

    /// Switches the sort key to the other one.
    pub fn toggle_sort_by(&mut self)
        ensures
            final(self)@ == old(self)@.with_table(old(self)@.process_table.sort_toggled()),
    {
        self.process_table.toggle_sort_by();
    }

    /// Shows the threads if they were hidden, hides them if they were shown.
    pub fn toggle_show_threads(&mut self)
        ensures
            final(self)@ == old(self)@.with_table(old(self)@.process_table.threads_toggled()),
    {
        self.process_table.toggle_show_threads();
    }

    /// The filter text in force, if any.
    pub fn active_filter(&self) -> (filter_by: Option<&str>)
        ensures
            filter_by is Some == self@.active_filter() is Some,
            filter_by matches Some(text) ==> self@.active_filter() == Some(text@),
    {
        match self.mode {
            Mode::Filter => Some(self.filter_by.as_str()),
            Mode::Normal => None,
        }
    }

    /// Takes an action of filter mode: leaves the mode, or edits the text.
    /// Does nothing in normal mode.
    pub fn apply_filter_action(&mut self, action: FilterAction)
        ensures
            final(self)@ == old(self)@.after_filter(action),
    {
        match self.mode {
            Mode::Normal => {},
            Mode::Filter => match action {
                FilterAction::Leave => {
                    self.mode = Mode::Normal;
                },
                FilterAction::Type(c) => {
                    self.filter_by.push(c);
                },
                FilterAction::Erase => {
                    self.filter_by.pop();
                },
                FilterAction::Ignore => {},
            },
        }
    }
}

} // verus!
