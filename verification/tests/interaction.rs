use mltop::data::cpu::{CoreSnapshot, CpuSnapshot};
use mltop::data::gpu::GpuSnapshot;
use mltop::data::memory::MemorySnapshot;
use mltop::data::processes::{Process, ProcessType, ProcessesSnapshot};
use mltop::data::store::StoredSnapshot;
use mltop::event::{
    filter_mode_action, normal_mode_action, Event, FilterAction, InputEvent, KeyCode, KeyEvent,
    KeyEventKind, KeyModifiers, NormalAction,
};
use mltop::state::{Mode, State};
use mltop::system::FakeSystem;
use mltop::tui::Tui;
use mltop::widgets::state::process_table::ProcessesSortBy;

const BYTES_PER_GB: u64 = 1024 * 1024 * 1024;

fn cpu() -> CpuSnapshot {
    let cores: Vec<CoreSnapshot> = (0..32).map(|_| CoreSnapshot { usage: 500, temp: 50_000 }).collect();
    CpuSnapshot { usage: 500, cores }
}

fn memory() -> MemorySnapshot {
    MemorySnapshot {
        used: 32 * BYTES_PER_GB,
        total: 64 * BYTES_PER_GB,
        used_swap: 0,
        total_swap: 64 * BYTES_PER_GB,
    }
}

fn gpu() -> GpuSnapshot {
    GpuSnapshot {
        name: String::from("RTX 5090"),
        temperature: 60,
        max_memory: 24 * BYTES_PER_GB,
        used_memory: 12 * BYTES_PER_GB,
        utilization: 50,
        max_power: 500,
        power_usage: 250,
        fan_speed: 50,
    }
}

fn processes() -> ProcessesSnapshot {
    ProcessesSnapshot { processes: Vec::new() }
}

fn system() -> FakeSystem {
    FakeSystem::default().with_cpu(cpu()).with_memory(memory()).with_gpu(gpu()).with_processes(processes())
}

fn process(pid: u32, cpu: u32, mem: u32, command: &str, type_: ProcessType) -> Process {
    Process {
        pid,
        type_,
        command: String::from(command),
        cpu_usage: cpu * 1000,
        memory: 0,
        memory_usage: mem * 1000,
    }
}

fn busy_system() -> FakeSystem {
    system().with_processes(ProcessesSnapshot {
        processes: vec![
            process(1, 10, 5, "/bin/bash", ProcessType::Cpu),
            process(2, 90, 1, "/usr/bin/python3", ProcessType::Cpu),
            process(3, 50, 9, "kworker", ProcessType::KernelThread),
        ],
    })
}

fn key(code: KeyCode) -> KeyEvent {
    KeyEvent { code, modifiers: KeyModifiers::Unmodified, kind: KeyEventKind::Press }
}

fn with(code: KeyCode, modifiers: KeyModifiers) -> KeyEvent {
    KeyEvent { code, modifiers, kind: KeyEventKind::Press }
}

fn press(tui: &mut Tui<FakeSystem>, code: KeyCode) -> bool {
    tui.handle_event(Event::Input(InputEvent::Key(key(code))))
}

#[test]
fn test_large_system() {
    let system: FakeSystem = system();
    let mut app = Tui::fake(system);
    assert!(app.handle_event(Event::Tick));
    assert_eq!(app.data.cpu.cores.len(), 32);
    assert_eq!(app.data_store.len(), 1);
    assert!(!app.exit);
}

#[test]
fn a_new_dashboard() {
    let tui = Tui::new(busy_system());
    assert!(!tui.exit);
    assert_eq!(tui.refresh_rate_ms, 1000);
    assert_eq!(tui.data_store.len(), 0);
    assert_eq!(tui.state.mode(), Mode::Normal);
    assert_eq!(tui.state.filter_by(), "");
    assert_eq!(tui.state.selected_row(), None);
    assert_eq!(tui.message_bus.read(), None);
    assert!(tui.system.can_read_gpu());
    assert!(tui.data.has_gpu());
    assert_eq!(tui.data.processes.processes.len(), 3);
    assert_eq!(tui.visible_count(), 2);
}

#[test]
fn a_dashboard_without_a_gpu_says_so() {
    let system = FakeSystem::default().with_cpu(cpu()).with_memory(memory());
    let mut tui = Tui::new(system);
    assert_eq!(tui.message_bus.read(), Some("No GPU found."));
    assert!(!tui.data.has_gpu());
    tui.handle_event(Event::Tick);
    assert!(!tui.data.has_gpu());
    assert_eq!(tui.data_store.snapshots()[0].gpu_use, None);
}

#[test]
fn normal_mode_key_map() {
    assert_eq!(normal_mode_action(&key(KeyCode::Char('q'))), NormalAction::Quit);
    assert_eq!(normal_mode_action(&key(KeyCode::Char('t'))), NormalAction::ToggleThreads);
    assert_eq!(normal_mode_action(&key(KeyCode::Down)), NormalAction::MoveDown);
    assert_eq!(normal_mode_action(&key(KeyCode::Char('j'))), NormalAction::MoveDown);
    assert_eq!(normal_mode_action(&key(KeyCode::Up)), NormalAction::MoveUp);
    assert_eq!(normal_mode_action(&key(KeyCode::Char('k'))), NormalAction::MoveUp);
    assert_eq!(normal_mode_action(&key(KeyCode::F(4))), NormalAction::EnterFilter);
    assert_eq!(normal_mode_action(&key(KeyCode::Char('/'))), NormalAction::EnterFilter);
    assert_eq!(normal_mode_action(&key(KeyCode::Esc)), NormalAction::Deactivate);
    assert_eq!(normal_mode_action(&key(KeyCode::F(5))), NormalAction::ToggleThreads);
    assert_eq!(normal_mode_action(&key(KeyCode::F(6))), NormalAction::ToggleSort);
    assert_eq!(normal_mode_action(&key(KeyCode::F(9))), NormalAction::Kill);
    assert_eq!(normal_mode_action(&key(KeyCode::F(1))), NormalAction::Ignore);
    assert_eq!(normal_mode_action(&key(KeyCode::Char('x'))), NormalAction::Ignore);
    assert_eq!(normal_mode_action(&key(KeyCode::Backspace)), NormalAction::Ignore);
    assert_eq!(normal_mode_action(&key(KeyCode::Other)), NormalAction::Ignore);
    assert_eq!(normal_mode_action(&with(KeyCode::Char('c'), KeyModifiers::Control)), NormalAction::Quit);
    assert_eq!(normal_mode_action(&with(KeyCode::Char('q'), KeyModifiers::Control)), NormalAction::Ignore);
    assert_eq!(normal_mode_action(&with(KeyCode::Char('G'), KeyModifiers::Shift)), NormalAction::GoToLast);
    assert_eq!(normal_mode_action(&with(KeyCode::Char('G'), KeyModifiers::Unmodified)), NormalAction::Ignore);
    assert_eq!(normal_mode_action(&with(KeyCode::Char('q'), KeyModifiers::Shift)), NormalAction::Ignore);
    assert_eq!(normal_mode_action(&with(KeyCode::Char('q'), KeyModifiers::Other)), NormalAction::Ignore);
}

#[test]
fn filter_mode_key_map() {
    assert_eq!(filter_mode_action(&key(KeyCode::Esc)), FilterAction::Leave);
    assert_eq!(filter_mode_action(&key(KeyCode::Char('q'))), FilterAction::Type('q'));
    assert_eq!(filter_mode_action(&key(KeyCode::Backspace)), FilterAction::Erase);
    assert_eq!(filter_mode_action(&key(KeyCode::F(9))), FilterAction::Ignore);
    assert_eq!(filter_mode_action(&with(KeyCode::Char('Q'), KeyModifiers::Shift)), FilterAction::Type('Q'));
    assert_eq!(filter_mode_action(&with(KeyCode::Esc, KeyModifiers::Shift)), FilterAction::Ignore);
    assert_eq!(filter_mode_action(&with(KeyCode::Char('c'), KeyModifiers::Control)), FilterAction::Ignore);
}

#[test]
fn quit_sets_the_exit_flag() {
    let mut tui = Tui::new(busy_system());
    assert!(!press(&mut tui, KeyCode::Char('q')));
    assert!(tui.exit);
    let mut tui = Tui::new(busy_system());
    let redraw = tui.handle_event(Event::Input(InputEvent::Key(with(KeyCode::Char('c'), KeyModifiers::Control))));
    assert!(!redraw);
    assert!(tui.exit);
}

#[test]
fn only_key_presses_count() {
    let mut tui = Tui::new(busy_system());
    let release = KeyEvent {
        code: KeyCode::Char('q'),
        modifiers: KeyModifiers::Unmodified,
        kind: KeyEventKind::Release,
    };
    assert!(!tui.handle_event(Event::Input(InputEvent::Key(release))));
    let repeat = KeyEvent { kind: KeyEventKind::Repeat, ..release };
    assert!(!tui.handle_event(Event::Input(InputEvent::Key(repeat))));
    assert!(!tui.handle_event(Event::Input(InputEvent::Other)));
    assert!(!tui.exit);
    assert!(!press(&mut tui, KeyCode::Char('x')));
    assert_eq!(tui.state.selected_row(), None);
}

#[test]
fn moving_the_selection() {
    let mut tui = Tui::new(busy_system());
    assert!(press(&mut tui, KeyCode::Up));
    assert_eq!(tui.state.selected_row(), Some(0));
    assert!(press(&mut tui, KeyCode::Up));
    assert_eq!(tui.state.selected_row(), Some(0));
    assert!(press(&mut tui, KeyCode::Down));
    assert!(press(&mut tui, KeyCode::Char('j')));
    assert_eq!(tui.state.selected_row(), Some(2));
    assert!(press(&mut tui, KeyCode::Char('k')));
    assert_eq!(tui.state.selected_row(), Some(1));
    assert!(press(&mut tui, KeyCode::Esc));
    assert_eq!(tui.state.selected_row(), None);
    assert!(press(&mut tui, KeyCode::Down));
    assert_eq!(tui.state.selected_row(), Some(0));
}

#[test]
fn toggling_sort_drops_the_selection() {
    let mut tui = Tui::new(busy_system());
    press(&mut tui, KeyCode::Down);
    assert_eq!(tui.state.selected_row(), Some(0));
    assert!(press(&mut tui, KeyCode::F(6)));
    assert_eq!(tui.state.selected_row(), None);
    assert!(!tui.state.table_is_active());
    assert_eq!(tui.state.process_table().sort_by, ProcessesSortBy::MEM);
    press(&mut tui, KeyCode::F(6));
    assert_eq!(tui.state.process_table().sort_by, ProcessesSortBy::CPU);
}

#[test]
fn toggling_threads_drops_the_selection() {
    let mut tui = Tui::new(busy_system());
    press(&mut tui, KeyCode::Down);
    press(&mut tui, KeyCode::Down);
    assert!(press(&mut tui, KeyCode::Char('t')));
    assert_eq!(tui.state.selected_row(), None);
    assert!(tui.state.process_table().show_threads);
    assert_eq!(tui.visible_count(), 3);
    assert!(press(&mut tui, KeyCode::F(5)));
    assert!(!tui.state.process_table().show_threads);
    assert_eq!(tui.visible_count(), 2);
}

#[test]
fn go_to_last_selects_the_last_visible_row() {
    let mut tui = Tui::new(busy_system());
    let shift_g = Event::Input(InputEvent::Key(with(KeyCode::Char('G'), KeyModifiers::Shift)));
    assert!(tui.handle_event(shift_g));
    assert_eq!(tui.state.selected_row(), Some(1));
    press(&mut tui, KeyCode::Char('t'));
    tui.handle_event(shift_g);
    assert_eq!(tui.state.selected_row(), Some(2));
    let mut empty = Tui::new(system());
    empty.handle_event(shift_g);
    assert_eq!(empty.state.selected_row(), Some(0));
}

#[test]
fn typing_a_filter() {
    let mut tui = Tui::new(busy_system());
    assert!(press(&mut tui, KeyCode::Char('/')));
    assert_eq!(tui.state.mode(), Mode::Filter);
    assert_eq!(tui.state.active_filter(), Some(""));
    assert_eq!(tui.visible_count(), 2);
    for c in "basx".chars() {
        assert!(press(&mut tui, KeyCode::Char(c)));
    }
    assert_eq!(tui.state.filter_by(), "basx");
    assert_eq!(tui.visible_count(), 0);
    assert!(press(&mut tui, KeyCode::Backspace));
    assert_eq!(tui.state.filter_by(), "bas");
    tui.handle_event(Event::Input(InputEvent::Key(with(KeyCode::Char('h'), KeyModifiers::Shift))));
    assert_eq!(tui.state.active_filter(), Some("bash"));
    assert_eq!(tui.visible_count(), 1);
    assert!(press(&mut tui, KeyCode::Char('q')));
    assert!(!tui.exit);
    assert_eq!(tui.state.filter_by(), "bashq");
    assert!(press(&mut tui, KeyCode::F(9)));
    assert_eq!(tui.state.filter_by(), "bashq");
    assert!(press(&mut tui, KeyCode::Esc));
    assert_eq!(tui.state.mode(), Mode::Normal);
    assert_eq!(tui.state.filter_by(), "bashq");
    assert_eq!(tui.state.active_filter(), None);
    assert_eq!(tui.visible_count(), 2);
}

#[test]
fn erasing_an_empty_filter_changes_nothing() {
    let mut state = State::new();
    state.apply_filter_action(FilterAction::Type('x'));
    assert_eq!(state.filter_by(), "");
    state.enter_filter_mode();
    state.apply_filter_action(FilterAction::Erase);
    assert_eq!(state.filter_by(), "");
    state.apply_filter_action(FilterAction::Type('a'));
    state.apply_filter_action(FilterAction::Type('\u{e9}'));
    assert_eq!(state.filter_by(), "a\u{e9}");
    state.apply_filter_action(FilterAction::Erase);
    assert_eq!(state.filter_by(), "a");
    state.apply_filter_action(FilterAction::Ignore);
    state.apply_filter_action(FilterAction::Leave);
    assert_eq!(state.filter_by(), "a");
    assert_eq!(state.mode(), Mode::Normal);
    state.apply_filter_action(FilterAction::Erase);
    assert_eq!(state.filter_by(), "a");
    state.exit_filter_mode();
    assert_eq!(state.active_filter(), None);
    state.enter_filter_mode();
    assert_eq!(state.active_filter(), Some("a"));
}

#[test]
fn kill_goes_to_the_selected_row() {
    let mut tui = Tui::new(busy_system());
    press(&mut tui, KeyCode::Down);
    assert_eq!(tui.selected_pid(), Some(2));
    assert!(press(&mut tui, KeyCode::F(9)));
    assert_eq!(tui.system.system.kill_requests, vec![2]);
    assert_eq!(tui.message_bus.read(), Some("Killed pid 2"));
    assert_eq!(tui.state.selected_row(), None);
}

#[test]
fn kill_with_a_stale_selection_does_nothing() {
    let mut tui = Tui::new(busy_system());
    tui.state.select_row(2);
    assert_eq!(tui.selected_pid(), None);
    assert!(press(&mut tui, KeyCode::F(9)));
    assert_eq!(tui.system.system.kill_requests, Vec::<usize>::new());
    assert_eq!(tui.message_bus.read(), None);
    assert_eq!(tui.state.selected_row(), None);
    tui.state.select_row(usize::MAX);
    tui.kill_process();
    assert_eq!(tui.system.system.kill_requests, Vec::<usize>::new());
    assert_eq!(tui.message_bus.read(), None);
}

#[test]
fn kill_without_a_selection_does_nothing() {
    let mut tui = Tui::new(busy_system());
    assert!(press(&mut tui, KeyCode::F(9)));
    assert_eq!(tui.system.system.kill_requests, Vec::<usize>::new());
    assert_eq!(tui.message_bus.read(), None);
}

#[test]
fn a_refused_kill_is_passed_over_in_silence() {
    let mut tui = Tui::new(busy_system());
    tui.kill_reported(7, false);
    assert_eq!(tui.message_bus.read(), None);
    tui.kill_reported(1234, true);
    assert_eq!(tui.message_bus.read(), Some("Killed pid 1234"));
    tui.kill_reported(7, false);
    assert_eq!(tui.message_bus.read(), Some("Killed pid 1234"));
}

#[test]
fn a_tick_saves_a_summary_and_merges_the_snapshot() {
    let mut tui = Tui::new(busy_system());
    assert!(tui.handle_event(Event::Tick));
    assert_eq!(
        tui.data_store.snapshots(),
        &vec![StoredSnapshot {
            cpu_use: 500,
            mem_use: 25_000,
            gpu_use: Some(50),
            gpu_mem_use: Some(12 * BYTES_PER_GB),
        }]
    );
    tui.system.system.cpu.usage = 900;
    tui.system.system.processes.processes.pop();
    assert!(tui.handle_render_event());
    assert_eq!(tui.data.cpu.usage, 900);
    assert_eq!(tui.data.processes.processes.len(), 2);
    assert_eq!(tui.data_store.len(), 2);
    assert_eq!(tui.data_store.snapshots()[1].cpu_use, 900);
}

#[test]
fn the_process_list_holds_still_while_a_row_is_selected() {
    let mut tui = Tui::new(busy_system());
    press(&mut tui, KeyCode::Down);
    tui.system.system.processes.processes.pop();
    tui.system.system.cpu.usage = 700;
    tui.handle_event(Event::Tick);
    assert_eq!(tui.data.processes.processes.len(), 3);
    assert_eq!(tui.data.cpu.usage, 700);
    press(&mut tui, KeyCode::Esc);
    tui.handle_event(Event::Tick);
    assert_eq!(tui.data.processes.processes.len(), 2);
}
