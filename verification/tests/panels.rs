use sysly::snapshot::{CoreSample, LoadAverage, MemoryStats, ProcessSample, ProcessStatus};
use sysly::style::Color;
use sysly::ui::{
    create_memory_bar, create_progress_bar, draw_cpu_bars, draw_memory_bars, draw_system_info,
    fill_count, get_cpu_color, get_memory_color, get_status_color, get_usage_color,
};

#[test]
fn progress_bar_fills_from_the_left() {
    assert_eq!(create_progress_bar(3, 5), "|||  ");
    assert_eq!(create_progress_bar(0, 4), "    ");
    assert_eq!(create_progress_bar(4, 4), "||||");
}

#[test]
fn fill_count_edges_and_monotonicity() {
    for w in [1u64, 4, 10, 37] {
        assert_eq!(fill_count(0, 100, w), 0);
        assert_eq!(fill_count(100, 100, w), w);
    }
    assert_eq!(fill_count(5, 100, 0), 0);
    assert_eq!(fill_count(7, 0, 10), 0);
    let mut last = 0;
    for used in 0..=100u64 {
        let f = fill_count(used, 100, 20);
        assert!(f >= last);
        last = f;
    }
    assert_eq!(fill_count(50, 100, 20), 10);
}

#[test]
fn cpu_color_thresholds_are_strict() {
    assert_eq!(get_cpu_color(810), Color::Red);
    assert_eq!(get_cpu_color(800), Color::Yellow);
    assert_eq!(get_cpu_color(510), Color::Yellow);
    assert_eq!(get_cpu_color(500), Color::Green);
    assert_eq!(get_cpu_color(0), Color::Green);
}

#[test]
fn memory_color_thresholds_are_strict() {
    assert_eq!(get_memory_color(81, 100), Color::Red);
    assert_eq!(get_memory_color(80, 100), Color::Yellow);
    assert_eq!(get_memory_color(51, 100), Color::Yellow);
    assert_eq!(get_memory_color(50, 100), Color::Green);
    assert_eq!(get_memory_color(0, 0), Color::Green);
    assert_eq!(get_memory_color(7, 0), Color::Green);
}

#[test]
fn usage_color_uses_the_table_thresholds() {
    assert_eq!(get_usage_color(510).fg, Some(Color::Red));
    assert_eq!(get_usage_color(500).fg, Some(Color::Yellow));
    assert_eq!(get_usage_color(210).fg, Some(Color::Yellow));
    assert_eq!(get_usage_color(200).fg, Some(Color::White));
}

#[test]
fn status_colors_by_code() {
    assert_eq!(get_status_color('R').fg, Some(Color::Yellow));
    assert_eq!(get_status_color('S').fg, Some(Color::Green));
    assert_eq!(get_status_color('Z').fg, Some(Color::Red));
    assert_eq!(get_status_color('I').fg, Some(Color::Gray));
}

#[test]
fn memory_bar_overlays_the_byte_label() {
    let label: Vec<char> = vec!['M', 'e', 'm'];
    let line = create_memory_bar(&label, 50, 100, 20, 5);
    assert_eq!(line.spans.len(), 4);
    assert_eq!(line.spans[0].text, "Mem  ");
    assert_eq!(line.spans[1].text, "[");
    // fill is 10 of 20; the 10-character "50KB/100KB" label overwrites the tail
    assert_eq!(line.spans[2].text, "||||||||||50KB/100KB");
    assert_eq!(line.spans[3].text, "]");
    // a ratio of exactly one half sits on the nominal side of the boundary
    assert_eq!(line.spans[2].style.fg, Some(Color::Green));
}

#[test]
fn memory_bar_truncates_a_long_label() {
    let label: Vec<char> = vec!['S', 'w', 'p'];
    let line = create_memory_bar(&label, 0, 0, 4, 5);
    // bar shorter than "0KB/0KB": the label starts at the left edge and clips
    assert_eq!(line.spans[2].text, "0KB/");
    assert_eq!(line.spans[2].style.fg, Some(Color::Green));
}

#[test]
fn memory_panel_builds_mem_and_swp_rows() {
    let memory = MemoryStats { used_bytes: 100, total_bytes: 100 };
    let swap = MemoryStats { used_bytes: 0, total_bytes: 100 };
    let lines = draw_memory_bars(memory, swap, 28);
    assert_eq!(lines.len(), 2);
    assert_eq!(lines[0].spans[0].text, "Mem  ");
    assert_eq!(lines[1].spans[0].text, "Swp  ");
    // width 28 leaves a 20-cell bar; Mem is full, Swp empty
    assert_eq!(lines[0].spans[2].text, "|||||||||100KB/100KB");
    assert_eq!(lines[1].spans[2].text, "           0KB/100KB");
}

#[test]
fn cpu_panel_lays_cores_out_column_major() {
    let cores = vec![CoreSample { usage_tenths: 0 }, CoreSample { usage_tenths: 1000 }];
    let lines = draw_cpu_bars(&cores, 80);
    assert_eq!(lines.len(), 1);
    let spans = &lines[0].spans;
    // cell 0: label, "[", bar, "] ", percent; then a separator
    assert_eq!(spans[0].text, " 0   ");
    assert_eq!(spans[1].text, "[");
    assert_eq!(spans[2].text, "     ");
    assert_eq!(spans[3].text, "] ");
    assert_eq!(spans[4].text, "  0.0%");
    assert_eq!(spans[5].text, "   ");
    assert_eq!(spans[6].text, " 1   ");
    assert_eq!(spans[8].text, "|||||");
    assert_eq!(spans[8].style.fg, Some(Color::Red));
    assert_eq!(spans[10].text, "100.0%");
    // two grid cells past the core count render as blank padding
    assert_eq!(spans[12].text, " ".repeat(19));
}

#[test]
fn cpu_panel_rounds_rows_up() {
    let cores: Vec<CoreSample> = (0..5).map(|_| CoreSample { usage_tenths: 100 }).collect();
    let lines = draw_cpu_bars(&cores, 120);
    assert_eq!(lines.len(), 2);
}

#[test]
fn system_info_lines_are_exact() {
    let processes = vec![
        sample(1, ProcessStatus::Running),
        sample(2, ProcessStatus::Sleeping),
    ];
    let load = LoadAverage { one_hundredths: 150, five_hundredths: 75, fifteen_hundredths: 5 };
    let lines = draw_system_info(&processes, load, 3661);
    assert_eq!(lines.len(), 3);
    assert_eq!(lines[0].spans[1].text, "Tasks: 2, N/A thr, 0 kthr; 1 running");
    assert_eq!(lines[1].spans[1].text, "Load average: 1.50 0.75 0.05");
    assert_eq!(lines[2].spans[1].text, "Uptime: 01:01:01");
    assert!(lines[2].spans[1].style.bold);
}

fn sample(pid: u32, status: ProcessStatus) -> ProcessSample {
    ProcessSample {
        pid,
        owner_id: None,
        command: vec![],
        status,
        cpu_tenths: 0,
        virtual_memory_bytes: 0,
        resident_memory_bytes: 0,
        run_time_seconds: 0,
    }
}
