use sysly::helpers::Rect;
use sysly::snapshot::{
    CoreSample, LoadAverage, MemoryStats, ProcessSample, ProcessStatus, Snapshot,
};
use sysly::ui::{
    draw_dashboard, draw_help_window, draw_info_bar, handle_key_event, help_lines, should_quit,
    should_refresh, AppState, Key,
};
use std::collections::HashMap;

#[test]
fn help_key_raises_the_overlay_from_the_dashboard() {
    let mut state = AppState { show_help: false };
    handle_key_event(&mut state, Key::Function(1));
    assert!(state.show_help);
}

#[test]
fn any_non_quit_key_dismisses_the_overlay() {
    for key in [Key::Char('x'), Key::Function(1), Key::Function(5), Key::Other] {
        let mut state = AppState { show_help: true };
        handle_key_event(&mut state, key);
        assert!(!state.show_help, "{:?} should dismiss help", key);
    }
}

#[test]
fn other_keys_are_a_no_op_on_the_dashboard() {
    for key in [Key::Char('x'), Key::Function(5), Key::Other] {
        let mut state = AppState { show_help: false };
        handle_key_event(&mut state, key);
        assert!(!state.show_help);
    }
}

#[test]
fn quit_signals_termination_from_either_state() {
    assert!(should_quit(Key::Char('q')));
    assert!(!should_quit(Key::Char('x')));
    assert!(!should_quit(Key::Function(1)));
    let mut state = AppState { show_help: true };
    handle_key_event(&mut state, Key::Char('q'));
    assert!(state.show_help);
    let mut state = AppState { show_help: false };
    handle_key_event(&mut state, Key::Char('q'));
    assert!(!state.show_help);
}

#[test]
fn refresh_only_on_the_dashboard_after_the_interval() {
    assert!(should_refresh(false, 1001));
    assert!(!should_refresh(false, 1000));
    assert!(!should_refresh(true, 5000));
}

#[test]
fn help_lines_carry_the_year_and_footer() {
    let lines = help_lines(2025);
    assert_eq!(lines.len(), 9);
    assert_eq!(lines[1].spans[1].text, "Sysly - macOS System Monitor Experiment");
    assert_eq!(lines[2].spans[1].text, "Version 1.1.0 - Conceived Jul 1, 2019");
    assert_eq!(lines[3].spans[1].text, "(C) 2019-2025");
    assert_eq!(lines[7].spans[1].text, "Press any key to return.");
}

#[test]
fn help_window_is_centered_at_sixty_by_twenty() {
    let area = Rect { x: 0, y: 0, width: 100, height: 100 };
    let help = draw_help_window(area);
    assert_eq!(help.area, Rect { x: 20, y: 40, width: 60, height: 20 });
    assert_eq!(help.lines.len(), 9);
}

fn snapshot() -> Snapshot {
    Snapshot {
        cores: vec![CoreSample { usage_tenths: 250 }, CoreSample { usage_tenths: 900 }],
        memory: MemoryStats { used_bytes: 2048, total_bytes: 4096 },
        swap: MemoryStats { used_bytes: 0, total_bytes: 1024 },
        processes: vec![
            ProcessSample {
                pid: 10,
                owner_id: None,
                command: vec!["init".to_string()],
                status: ProcessStatus::Running,
                cpu_tenths: 10,
                virtual_memory_bytes: 1024,
                resident_memory_bytes: 1024,
                run_time_seconds: 3,
            },
            ProcessSample {
                pid: 4,
                owner_id: None,
                command: vec!["busy".to_string()],
                status: ProcessStatus::Running,
                cpu_tenths: 990,
                virtual_memory_bytes: 2048,
                resident_memory_bytes: 2048,
                run_time_seconds: 60,
            },
        ],
        load_average: LoadAverage {
            one_hundredths: 100,
            five_hundredths: 50,
            fifteen_hundredths: 25,
        },
        uptime_seconds: 60,
    }
}

#[test]
fn info_bar_splits_cpu_band_then_halves() {
    let snap = snapshot();
    let area = Rect { x: 0, y: 0, width: 80, height: 7 };
    let bar = draw_info_bar(
        &snap.cores,
        snap.memory,
        snap.swap,
        &snap.processes,
        snap.load_average,
        snap.uptime_seconds,
        area,
    );
    assert_eq!(bar.cpu.area.height, 1);
    assert_eq!(bar.cpu.lines.len(), 1);
    assert_eq!(bar.memory.area, Rect { x: 0, y: 1, width: 40, height: 6 });
    assert_eq!(bar.info.area, Rect { x: 40, y: 1, width: 40, height: 6 });
    assert_eq!(bar.memory.lines.len(), 2);
    assert_eq!(bar.info.lines.len(), 3);
    assert_eq!(bar.info.lines[0].spans[1].text, "Tasks: 2, N/A thr, 0 kthr; 2 running");
}

#[test]
fn dashboard_bands_and_sorted_table() {
    let snap = snapshot();
    let users: HashMap<u32, String> = HashMap::new();
    let priority_map = sysly::process::fetch_priority_map();
    let memory_map = sysly::process::fetch_memory_map();
    let area = Rect { x: 1, y: 1, width: 78, height: 22 };
    let d = draw_dashboard(snap, &users, &priority_map, &memory_map, area);
    assert_eq!(d.table.area, Rect { x: 1, y: 8, width: 78, height: 15 });
    assert_eq!(d.info_bar.cpu.area.y, 1);
    assert_eq!(d.table.rows.len(), 2);
    // the busy process sorts first and carries the highlight
    assert_eq!(d.table.rows[0].cells[0].text, "4");
    assert!(d.table.rows[0].style.reversed);
    assert_eq!(d.table.rows[1].cells[0].text, "10");
    assert_eq!(d.table.header.cells.len(), 11);
    assert_eq!(d.table.constraints.len(), 11);
}
