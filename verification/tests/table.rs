use std::collections::HashMap;
use sysly::process::{
    fetch_memory_map, fetch_priority_map, get_process_memory, get_process_priority, ProcessMemory,
    ProcessPriority,
};
use sysly::snapshot::{ProcessSample, ProcessStatus};
use sysly::style::Color;
use sysly::ui::{
    create_process_row, create_table_header, get_process_status, get_table_constraints,
    join_command, sort_processes, ColumnConstraint,
};

fn sample(pid: u32, cpu_tenths: u32) -> ProcessSample {
    ProcessSample {
        pid,
        owner_id: None,
        command: vec![],
        status: ProcessStatus::Sleeping,
        cpu_tenths,
        virtual_memory_bytes: 0,
        resident_memory_bytes: 0,
        run_time_seconds: 0,
    }
}

#[test]
fn sort_orders_by_cpu_descending() {
    let v = vec![sample(1, 100), sample(2, 900), sample(3, 500)];
    let r = sort_processes(v);
    let cpus: Vec<u32> = r.iter().map(|p| p.cpu_tenths).collect();
    assert_eq!(cpus, vec![900, 500, 100]);
}

#[test]
fn sort_breaks_cpu_ties_by_ascending_pid() {
    let v = vec![sample(9, 500), sample(3, 500), sample(7, 500)];
    let r = sort_processes(v);
    let pids: Vec<u32> = r.iter().map(|p| p.pid).collect();
    assert_eq!(pids, vec![3, 7, 9]);
}

#[test]
fn reconciliation_falls_back_to_primary_values() {
    let memory_map = fetch_memory_map();
    let m = get_process_memory(42, &memory_map, 1111, 2222);
    assert_eq!(m.virtual_memory, 1111);
    assert_eq!(m.resident_memory, 2222);

    let mut filled: HashMap<u32, ProcessMemory> = HashMap::new();
    filled.insert(42, ProcessMemory { virtual_memory: 5, resident_memory: 6 });
    let m = get_process_memory(42, &filled, 1111, 2222);
    assert_eq!(m.virtual_memory, 5);
    assert_eq!(m.resident_memory, 6);
    let m = get_process_memory(43, &filled, 7, 8);
    assert_eq!((m.virtual_memory, m.resident_memory), (7, 8));
}

#[test]
fn priority_falls_back_to_question_marks() {
    let priority_map = fetch_priority_map();
    let p = get_process_priority(1, &priority_map);
    assert_eq!(p.priority, "?");
    assert_eq!(p.nice, "?");

    let mut filled: HashMap<u32, ProcessPriority> = HashMap::new();
    filled.insert(1, ProcessPriority { priority: "31".to_string(), nice: "0".to_string() });
    let p = get_process_priority(1, &filled);
    assert_eq!(p.priority, "31");
    assert_eq!(p.nice, "0");
}

#[test]
fn status_codes_take_the_first_letter() {
    assert_eq!(get_process_status(ProcessStatus::Running), 'R');
    assert_eq!(get_process_status(ProcessStatus::Sleeping), 'S');
    assert_eq!(get_process_status(ProcessStatus::Zombie), 'Z');
    assert_eq!(get_process_status(ProcessStatus::Other('I')), 'I');
    assert_eq!(get_process_status(ProcessStatus::Other('?')), '?');
}

#[test]
fn join_command_uses_single_spaces() {
    assert_eq!(join_command(&vec![]), "");
    assert_eq!(join_command(&vec!["ls".to_string()]), "ls");
    assert_eq!(join_command(&vec!["ls".to_string(), "-l".to_string(), "/".to_string()]), "ls -l /");
}

#[test]
fn header_and_constraints_match_the_fixed_layout() {
    let header = create_table_header();
    let texts: Vec<&str> = header.cells.iter().map(|c| c.text.as_str()).collect();
    assert_eq!(
        texts,
        vec!["PID", "USER", "PRI", "NI", "VIRT", "RES", "S", "CPU% ", "MEM% ", "TIME+", "Command"]
    );
    assert!(header.cells.iter().all(|c| c.style.bold));
    let widths = get_table_constraints();
    assert_eq!(widths.len(), 11);
    assert_eq!(widths[0], ColumnConstraint::Length(7));
    assert_eq!(widths[1], ColumnConstraint::Length(12));
    assert_eq!(widths[10], ColumnConstraint::Min(10));
}

#[test]
fn process_row_resolves_every_column() {
    let process = ProcessSample {
        pid: 42,
        owner_id: Some(501),
        command: vec!["ls".to_string(), "-l".to_string()],
        status: ProcessStatus::Running,
        cpu_tenths: 123,
        virtual_memory_bytes: 2048,
        resident_memory_bytes: 4096,
        run_time_seconds: 90,
    };
    let mut users: HashMap<u32, String> = HashMap::new();
    users.insert(501, "alice".to_string());
    let priority_map = fetch_priority_map();
    let memory_map = fetch_memory_map();
    let row = create_process_row(0, &process, &users, &priority_map, &memory_map, 40960);

    let texts: Vec<&str> = row.cells.iter().map(|c| c.text.as_str()).collect();
    assert_eq!(
        texts,
        vec!["42", "alice", "?", "?", "2KB", "4KB", "R", "12.3", "10.0", "00:01.30", "ls -l"]
    );
    // the top row carries the reverse-video highlight
    assert!(row.style.reversed);
    assert_eq!(row.style.bg, Some(Color::Blue));

    let row1 = create_process_row(1, &process, &users, &priority_map, &memory_map, 40960);
    assert!(!row1.style.reversed);
    assert_eq!(row1.style.bg, Some(Color::Black));
    let row2 = create_process_row(2, &process, &users, &priority_map, &memory_map, 40960);
    assert_eq!(row2.style.bg, Some(Color::Rgb(30, 30, 30)));
}

#[test]
fn process_row_uses_side_channel_memory_when_present() {
    let process = ProcessSample {
        pid: 7,
        owner_id: None,
        command: vec![],
        status: ProcessStatus::Zombie,
        cpu_tenths: 0,
        virtual_memory_bytes: 1024 * 1024,
        resident_memory_bytes: 1024 * 1024,
        run_time_seconds: 0,
    };
    let users: HashMap<u32, String> = HashMap::new();
    let priority_map = fetch_priority_map();
    let mut memory_map = fetch_memory_map();
    memory_map.insert(7, ProcessMemory { virtual_memory: 3, resident_memory: 9 });
    let row = create_process_row(3, &process, &users, &priority_map, &memory_map, 0);
    assert_eq!(row.cells[1].text, "?");
    assert_eq!(row.cells[4].text, "3KB");
    assert_eq!(row.cells[5].text, "9KB");
    // zero total memory yields a zero memory percentage
    assert_eq!(row.cells[8].text, "0.0");
    assert_eq!(row.cells[6].text, "Z");
}
