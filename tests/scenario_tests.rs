use pc_watcher::event::{classify_win_event, EventType, LocalTime, WindowEvent, WindowHandle, EVENT_OBJECT_CREATE};
use pc_watcher::notification::{show_start_notification, show_stop_notification};
use pc_watcher::capture::{hook_ranges, is_click, registration_outcome, RegistrationError};
use pc_watcher::process::{ancestor_level, ProcessInfo, SnapshotEntry};
use pc_watcher::worker::{process_event, EventWorker};

fn scenario_time(ms: i64) -> LocalTime {
    LocalTime { epoch_ms: ms, year: 2025, month: 6, day: 1, hour: 12, minute: 0, second: 0, millisecond: 0 }
}

fn powershell_info() -> ProcessInfo {
    let rows = vec![
        SnapshotEntry { pid: 4242, parent_pid: 1000, exe_file: "powershell.exe".to_string() },
        SnapshotEntry { pid: 1000, parent_pid: 900, exe_file: "explorer.exe".to_string() },
        SnapshotEntry { pid: 900, parent_pid: 0, exe_file: "userinit.exe".to_string() },
    ];
    let mut info = ProcessInfo::identify(
        4242,
        "Windows PowerShell".to_string(),
        "ConsoleWindowClass".to_string(),
        Some("C:\\Windows\\System32\\WindowsPowerShell\\v1.0\\powershell.exe".to_string()),
        None,
    );
    while let Some(child) = info.next_ancestor_query() {
        let path = match child {
            4242 => Some("C:\\Windows\\explorer.exe".to_string()),
            1000 => Some("C:\\Windows\\System32\\userinit.exe".to_string()),
            _ => None,
        };
        info.push_ancestor(ancestor_level(&rows, child, path));
    }
    info
}

#[test]
fn created_powershell_window_is_logged_once_with_one_alert() {
    let kind = classify_win_event(EVENT_OBJECT_CREATE, 0, true, false).unwrap();
    assert_eq!(kind, EventType::Created);
    let event = WindowEvent { event_type: kind, hwnd: WindowHandle(0x1234), timestamp: scenario_time(50_000) };
    let mut worker = EventWorker::new();
    let mut entries = Vec::new();
    let mut alerts = Vec::new();
    if worker.accept(&event) {
        let out = process_event(&event, powershell_info(), 50_000, 49_900);
        entries.push(out.entry);
        alerts.extend(out.alert);
    }
    assert_eq!(entries.len(), 1);
    assert_eq!(entries[0].event_type, "CREATED");
    assert_eq!(entries[0].ancestry[0].name, "explorer");
    assert_eq!(entries[0].ancestry[0].pid, 1000);
    assert_eq!(entries[0].ancestry[0].path, "C:\\Windows\\explorer.exe");
    assert_eq!(alerts, vec!["powershell".to_string()]);
}

#[test]
fn same_event_twice_within_fifty_ms_is_logged_once() {
    let mut worker = EventWorker::new();
    let mut logged = 0;
    for ms in [70_000, 70_050] {
        let event = WindowEvent { event_type: EventType::Created, hwnd: WindowHandle(0x55), timestamp: scenario_time(ms) };
        if worker.accept(&event) {
            let _ = process_event(&event, powershell_info(), ms as u64, 0);
            logged += 1;
        }
    }
    assert_eq!(logged, 1);
}

#[test]
fn focus_without_click_alert_label() {
    let mut info = powershell_info();
    info.process_name = "notepad".to_string();
    let event = WindowEvent { event_type: EventType::Foreground, hwnd: WindowHandle(1), timestamp: scenario_time(1) };
    let out = process_event(&event, info, 10_600, 10_000);
    assert_eq!(out.alert, Some("notepad (no click!)".to_string()));
    assert_eq!(out.entry.event_type, "FOCUS");
}

#[test]
fn start_and_stop_lines() {
    let lines = show_start_notification();
    assert_eq!(lines[0], "=== PC Watcher started ===");
    assert_eq!(lines[1], "Monitoring window focus events...");
    assert_eq!(
        lines[2],
        "Alert on: [\"powershell\", \"pwsh\", \"cmd\", \"wscript\", \"cscript\", \"mshta\", \"rundll32\", \"regsvr32\"]"
    );
    assert_eq!(show_stop_notification(), "=== PC Watcher ended ===");
}

#[test]
fn registration_needs_one_subscription() {
    assert_eq!(hook_ranges().len(), 6);
    assert_eq!(hook_ranges()[4], (0x0016, 0x0017));
    assert_eq!(registration_outcome::<u8>(vec![], false), Err(RegistrationError::NoHooks));
    assert_eq!(registration_outcome::<u8>(vec![], true), Ok(vec![]));
    assert_eq!(registration_outcome(vec![3u8], false), Ok(vec![3u8]));
    assert_eq!(registration_outcome(vec![3u8, 4u8], true), Ok(vec![3u8, 4u8]));
    assert_eq!(RegistrationError::NoHooks.message(), "No hooks could be set!");
}

#[test]
fn clicks_are_button_presses() {
    assert!(is_click(0, 0x0201));
    assert!(is_click(0, 0x0204));
    assert!(is_click(3, 0x0207));
    assert!(!is_click(-1, 0x0201));
    assert!(!is_click(0, 0x0200));
}
