use crate::config::REFRESH_RATE_MILLIS;
use crate::data::collector::Collector;
use crate::data::processes::Process;
use crate::data::snapshot::DataSnapshot;
use crate::data::store::{most_recent, DataStore, StoredSnapshot};
use crate::data::system_data::SystemData;
use crate::data::update_kind::DataUpdateKind;
use crate::event::{
    filter_action, filter_mode_action, normal_action, normal_mode_action, Event, InputEvent,
    KeyEvent, KeyEventKind, NormalAction,
};
use crate::message_bus::MessageBus;
use crate::state::{Mode, State};
use crate::system::{FakeSystem, SystemProvider};
use crate::text::{decimal, decimal_text};
use crate::widgets::process_table::{visible, ProcessTableWidget};
use vstd::prelude::*;

verus! {

/// The text of the message that reports a kill.
pub open spec fn killed_message(pid: u32) -> Seq<char> {
    "Killed pid "@ + decimal(pid as nat)
}

/// The dashboard's control state: everything the control loop owns. The loop
/// hands it one event at a time; it says back whether the screen is to be
/// drawn anew, and raises `exit` when the loop is to end.
pub struct Tui<S: SystemProvider> {
    pub system: Collector<S>,
    pub data: SystemData,
    pub data_store: DataStore,
    pub exit: bool,
    pub message_bus: MessageBus,
    pub refresh_rate_ms: u64,
    pub state: State,
}

impl<S: SystemProvider> Tui<S> {
    /// The list the process table shows now.
    pub open spec fn visible_rows(&self) -> Seq<Process> {
        visible(
            self.data.processes.processes@,
            self.state@.active_filter(),
            self.state@.process_table,
        )
    }

    /// The process a kill would go to now: the one on the selected row of
    /// the visible list, if a row is selected and the list has that row.
    pub open spec fn kill_target(&self) -> Option<u32> {
        match self.state@.process_table.selected {
            Some(row) => if row < self.visible_rows().len() {
                Some(self.visible_rows()[row as int].pid)
            } else {
                None
            },
            None => None,
        }
    }

    /// All but the interaction state is as it was in `before`.
    pub open spec fn only_state_differs(&self, before: &Self) -> bool {
        &&& self.system == before.system
        &&& self.data == before.data
        &&& self.data_store == before.data_store
        &&& self.exit == before.exit
        &&& self.message_bus == before.message_bus
        &&& self.refresh_rate_ms == before.refresh_rate_ms
    }

    /// What a key of normal mode does. The interaction state moves as the
    /// key's action says; only the quit keys raise `exit`; the provider and
    /// the message bus are left alone unless the key asks for a kill and the
    /// selection names a visible row; the data and the history stay. The
    /// screen is drawn anew for every action but quitting and keys that mean
    /// nothing.
    pub open spec fn normal_key_handled(&self, before: &Self, key: KeyEvent, redraw: bool) -> bool {
        let action = normal_action(key);
        &&& self.state@ == before.state@.after_normal(action, before.visible_rows().len())
        &&& self.exit == (before.exit || action is Quit)
        &&& self.data == before.data
        &&& self.data_store == before.data_store
        &&& self.refresh_rate_ms == before.refresh_rate_ms
        &&& self.system.can_read_gpu() == before.system.can_read_gpu()
        &&& !(action is Kill && before.kill_target() is Some) ==> self.system == before.system
            && self.message_bus == before.message_bus
        &&& action is Kill ==> (before.kill_target() matches Some(pid) ==> self.message_bus
            == before.message_bus || self.message_bus@.text == Some(killed_message(pid)))
        &&& redraw == !(action is Quit || action is Ignore)
    }

    /// What a key of filter mode does: the interaction state moves as the
    /// key's action says, nothing else changes, and the screen is drawn anew.
    pub open spec fn filter_key_handled(&self, before: &Self, key: KeyEvent, redraw: bool) -> bool {
        &&& self.state@ == before.state@.after_filter(filter_action(key))
        &&& self.only_state_differs(before)
        &&& redraw
    }

    /// What a tick does, given the snapshot `snapshot` that was collected at
    /// it: the snapshot's summary goes into the history and the snapshot is
    /// merged into the current view. The message bus is as it was, or
    /// cleared. The interaction state and `exit` stay.
    pub open spec fn tick_handled(&self, before: &Self, snapshot: DataSnapshot) -> bool {
        &&& snapshot.cpu is Some
        &&& snapshot.memory is Some
        &&& snapshot.processes is Some <==> !before.state@.process_table.is_active()
        &&& snapshot.gpu is Some ==> before.system.can_read_gpu()
        &&& self.data == before.data.merged(snapshot)
        &&& self.data_store@ == most_recent(
            before.data_store@.push(StoredSnapshot::summary_of(snapshot)),
            before.data_store.bound() as int,
        )
        &&& self.data_store.bound() == before.data_store.bound()
        &&& self.state == before.state
        &&& self.exit == before.exit
        &&& self.refresh_rate_ms == before.refresh_rate_ms
        &&& self.system.can_read_gpu() == before.system.can_read_gpu()
        &&& self.message_bus@ == before.message_bus@ || self.message_bus@ == (
        crate::message_bus::BusView { text: None, ..before.message_bus@ })
    }

    /// The dashboard over `system`, after a first collection of every
    /// category. Where the provider has no GPU, a message says so.
    pub fn new(system: S) -> (tui: Tui<S>)
        ensures
            !tui.exit,
            tui.refresh_rate_ms == REFRESH_RATE_MILLIS,
            tui.data_store@ == Seq::<StoredSnapshot>::empty(),
            tui.state@.mode is Normal,
            tui.state@.filter_by == Seq::<char>::empty(),
            tui.state@.process_table.selected is None,
            tui.state@.process_table.sort_by is CPU,
            !tui.state@.process_table.show_threads,
            tui.message_bus@.text == if tui.system.can_read_gpu() {
                None
            } else {
                Some("No GPU found."@)
            },
            tui.data.gpu is Some ==> tui.system.can_read_gpu(),
    {
        let mut message_bus = MessageBus::new();
        let mut system = Collector::new(system);
        let data = SystemData::new_from_snapshot(system.collect(&DataUpdateKind::all()));
        if !system.can_read_gpu() {
            message_bus.send(String::from_str("No GPU found."));
        }
        Tui {
            system,
            data,
            data_store: DataStore::new(),
            exit: false,
            message_bus,
            refresh_rate_ms: REFRESH_RATE_MILLIS,
            state: State::new(),
        }
    }

    /// Takes one event of the merged stream: a tick, or something from the
    /// terminal. Says whether the screen is to be drawn anew.
    pub fn handle_event(&mut self, event: Event) -> (redraw: bool)
        ensures
            match event {
                Event::Tick => redraw && exists|snapshot: DataSnapshot|
                    final(self).tick_handled(old(self), snapshot),
                Event::Input(input) => final(self).input_handled(old(self), input, redraw),
            },
    {
        match event {
            Event::Input(input) => self.handle_input_event(input),
            Event::Tick => self.handle_render_event(),
        }
    }

    /// What an input event does: a key that went down is handled by the mode
    /// the dashboard is in; anything else changes nothing.
    pub open spec fn input_handled(&self, before: &Self, input: InputEvent, redraw: bool) -> bool {
        match input {
            InputEvent::Key(key) => if key.kind is Press {
                match before.state@.mode {
                    Mode::Normal => self.normal_key_handled(before, key, redraw),
                    Mode::Filter => self.filter_key_handled(before, key, redraw),
                }
            } else {
                *self == *before && !redraw
            },
            InputEvent::Other => *self == *before && !redraw,
        }
    }

    /// Takes an event from the terminal. Only keys that went down count.
    pub fn handle_input_event(&mut self, input: InputEvent) -> (redraw: bool)
        ensures
            final(self).input_handled(old(self), input, redraw),
    {
        match input {
            InputEvent::Key(key) => match key.kind {
                KeyEventKind::Press => match self.state.mode() {
                    Mode::Normal => self.handle_key_event_normal_mode(key),
                    Mode::Filter => self.handle_key_event_filter_mode(key),
                },
                _ => false,
            },
            InputEvent::Other => false,
        }
    }

    /// Takes a key in normal mode.
    pub fn handle_key_event_normal_mode(&mut self, key: KeyEvent) -> (redraw: bool)
        ensures
            final(self).normal_key_handled(old(self), key, redraw),
    {
        match normal_mode_action(&key) {
            NormalAction::Quit => {
                self.exit();
                false
            },
            NormalAction::ToggleThreads => {
                self.toggle_threads();
                true
            },
            NormalAction::MoveDown => {
                self.move_down();
                true
            },
            NormalAction::MoveUp => {
                self.move_up();
                true
            },
            NormalAction::EnterFilter => {
                self.enter_filter_mode();
                true
            },
            NormalAction::Deactivate => {
                self.deactivate();
                true
            },
            NormalAction::ToggleSort => {
                self.toggle_sort_by();
                true
            },
            NormalAction::Kill => {
                self.kill_process();
                true
            },
            NormalAction::GoToLast => {
                self.go_to_last();
                true
            },
            NormalAction::Ignore => false,
        }
    }

    /// Takes a key in filter mode.
    pub fn handle_key_event_filter_mode(&mut self, key: KeyEvent) -> (redraw: bool)
        ensures
            final(self).filter_key_handled(old(self), key, redraw),
    {
        self.state.apply_filter_action(filter_mode_action(&key));
        true
    }

    /// Takes a tick: lets the message bus drop a message that has outlived
    /// its time, then collects and takes in a snapshot.
    pub fn handle_render_event(&mut self) -> (redraw: bool)
        ensures
            redraw,
            exists|snapshot: DataSnapshot| final(self).tick_handled(old(self), snapshot),
    {
        self.message_bus.check();
        let ghost checked = *self;
        self.update_data();
        proof {
            let snapshot = choose|snapshot: DataSnapshot|
                {
                    &&& self.tick_handled(&checked, snapshot)
                    &&& self.message_bus == checked.message_bus
                };
            assert(self.tick_handled(old(self), snapshot));
        }
        true
    }

    /// Drops the table's selection.
    pub fn deactivate(&mut self)
        ensures
            final(self).state@ == old(self).state@.with_table(
                old(self).state@.process_table.deactivated(),
            ),
            final(self).only_state_differs(old(self)),
    {
        self.state.deactivate_table();
    }

    /// Lets keys go into the filter text from now on.
    pub fn enter_filter_mode(&mut self)
        ensures
            final(self).state@ == old(self).state@.with_mode(Mode::Filter),
            final(self).only_state_differs(old(self)),
    {
        self.state.enter_filter_mode();
    }

    /// Goes back to normal mode. The filter text is kept.
    pub fn exit_filter_mode(&mut self)
        ensures
            final(self).state@ == old(self).state@.with_mode(Mode::Normal),
            final(self).only_state_differs(old(self)),
    {
        self.state.exit_filter_mode();
    }

    /// Asks the control loop to end.
    pub fn exit(&mut self)
        ensures
            *final(self) == (Tui { exit: true, ..*old(self) }),
    {
        self.exit = true;
    }

    /// How many rows the process table shows now.
    pub fn visible_count(&self) -> (n: usize)
        ensures
            n == self.visible_rows().len(),
    {
        let table = ProcessTableWidget {
            data: &self.data.processes,
            filter_by: self.state.active_filter(),
        };
        table.visible_count(self.state.process_table())
    }

    /// Selects the last row of the visible list; row zero where the list is
    /// empty.
    pub fn go_to_last(&mut self)
        ensures
            final(self).state@ == old(self).state@.after_normal(
                NormalAction::GoToLast,
                old(self).visible_rows().len(),
            ),
            final(self).only_state_differs(old(self)),
    {
        let count = self.visible_count();
        let n: usize = if count == 0 {
            0
        } else {
            count - 1
        };
        self.state.select_row(n);
    }

    /// Moves the selection one row down.
    pub fn move_down(&mut self)
        ensures
            final(self).state@ == old(self).state@.with_table(
                old(self).state@.process_table.moved_down(),
            ),
            final(self).only_state_differs(old(self)),
    {
        self.state.move_down();
    }

    /// Moves the selection one row up.
    pub fn move_up(&mut self)
        ensures
            final(self).state@ == old(self).state@.with_table(
                old(self).state@.process_table.moved_up(),
            ),
            final(self).only_state_differs(old(self)),
    {
        self.state.move_up();
    }

    /// Switches the sort key and, since the rows then change places, drops
    /// the selection.
    pub fn toggle_sort_by(&mut self)
        ensures
            final(self).state@ == old(self).state@.with_table(
                old(self).state@.process_table.sort_toggled().deactivated(),
            ),
            final(self).state@.process_table.selected is None,
            final(self).only_state_differs(old(self)),
    {
        self.state.toggle_sort_by();
        self.deactivate();
    }

    /// Shows or hides the threads and, since the list then changes length,
    /// drops the selection.
    pub fn toggle_threads(&mut self)
        ensures
            final(self).state@ == old(self).state@.with_table(
                old(self).state@.process_table.threads_toggled().deactivated(),
            ),
            final(self).state@.process_table.selected is None,
            final(self).only_state_differs(old(self)),
    {
        self.state.toggle_show_threads();
        self.deactivate();
    }

    /// The process a kill would go to now.
    pub fn selected_pid(&self) -> (pid: Option<u32>)
        ensures
            pid == self.kill_target(),
    {
        match self.state.selected_row() {
            Some(row) => {
                let table = ProcessTableWidget {
                    data: &self.data.processes,
                    filter_by: self.state.active_filter(),
                };
                table.get_nth_pid(row, self.state.process_table())
            },
            None => None,
        }
    }

    /// Takes the provider's answer to a kill request for `pid`: a granted
    /// request is reported on the message bus, a refused one is passed over
    /// in silence.
    pub fn kill_reported(&mut self, pid: u32, granted: bool)
        ensures
            granted ==> final(self).message_bus@.text == Some(killed_message(pid))
                && final(self).message_bus@.lifetime == old(self).message_bus@.lifetime,
            !granted ==> final(self).message_bus == old(self).message_bus,
            final(self).system == old(self).system,
            final(self).data == old(self).data,
            final(self).data_store == old(self).data_store,
            final(self).exit == old(self).exit,
            final(self).refresh_rate_ms == old(self).refresh_rate_ms,
            final(self).state == old(self).state,
    {
        if granted {
            let mut message = String::from_str("Killed pid ");
            message.append(decimal_text(pid).as_str());
            self.message_bus.send(message);
        }
    }

    /// Asks the provider to end the process on the selected row, and drops
    /// the selection. Where no row is selected, or the visible list has no
    /// such row any more, the provider is not called and no message is sent.
    pub fn kill_process(&mut self)
        ensures
            final(self).state@ == old(self).state@.with_table(
                old(self).state@.process_table.deactivated(),
            ),
            final(self).data == old(self).data,
            final(self).data_store == old(self).data_store,
            final(self).exit == old(self).exit,
            final(self).refresh_rate_ms == old(self).refresh_rate_ms,
            final(self).system.can_read_gpu() == old(self).system.can_read_gpu(),
            old(self).kill_target() is None ==> final(self).system == old(self).system && final(self).message_bus == old(self).message_bus,
            old(self).kill_target() matches Some(pid) ==> final(self).message_bus == old(self).message_bus || final(self).message_bus@.text == Some(killed_message(pid)),
    {
        if let Some(pid) = self.selected_pid() {
            let granted = self.system.kill_process(pid as usize);
            self.kill_reported(pid, granted);
        }
        self.deactivate();
    }

    /// Takes a collected snapshot in: its summary goes into the history, and
    /// what it holds replaces what the current view held.
    pub fn absorb_snapshot(&mut self, snapshot: DataSnapshot)
        requires
            snapshot.cpu is Some,
            snapshot.memory is Some,
        ensures
            final(self).data == old(self).data.merged(snapshot),
            final(self).data_store@ == most_recent(
                old(self).data_store@.push(StoredSnapshot::summary_of(snapshot)),
                old(self).data_store.bound() as int,
            ),
            final(self).data_store.bound() == old(self).data_store.bound(),
            final(self).system == old(self).system,
            final(self).state == old(self).state,
            final(self).exit == old(self).exit,
            final(self).message_bus == old(self).message_bus,
            final(self).refresh_rate_ms == old(self).refresh_rate_ms,
    {
        let stored = StoredSnapshot::from_data_snapshot(&snapshot);
        self.data_store.save(stored);
        self.data.update_from_snapshot(snapshot);
    }

    /// Collects a snapshot and takes it in. The process list is left out of
    /// the collection while a row is selected, so that the rows hold still
    /// under the cursor.
    pub fn update_data(&mut self)
        ensures
            exists|snapshot: DataSnapshot|
                {
                    &&& final(self).tick_handled(old(self), snapshot)
                    &&& final(self).message_bus == old(self).message_bus
                },
    {
        let update_kind = if self.state.table_is_active() {
            DataUpdateKind::all().without_processes()
        } else {
            DataUpdateKind::all()
        };
        let data_snapshot = self.system.collect(&update_kind);
        let ghost collected = data_snapshot;
        self.absorb_snapshot(data_snapshot);
        assert(self.tick_handled(old(self), collected));
    }
}

impl Tui<FakeSystem> {
    /// The dashboard over canned samples.
    pub fn fake(system: FakeSystem) -> (tui: Tui<FakeSystem>)
        ensures
            !tui.exit,
            tui.refresh_rate_ms == REFRESH_RATE_MILLIS,
            tui.data_store@ == Seq::<StoredSnapshot>::empty(),
            tui.state@.mode is Normal,
            tui.state@.filter_by == Seq::<char>::empty(),
            tui.state@.process_table.selected is None,
            tui.state@.process_table.sort_by is CPU,
            !tui.state@.process_table.show_threads,
            tui.message_bus@.text == if tui.system.can_read_gpu() {
                None
            } else {
                Some("No GPU found."@)
            },
            tui.data.gpu is Some ==> tui.system.can_read_gpu(),
    {
        Tui::new(system)
    }
}

} // verus!
