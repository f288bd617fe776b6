use pc_watcher::entry::LogEntry;
use pc_watcher::event::LocalTime;
use pc_watcher::process::AncestorLevel;

fn entry_stamp() -> LocalTime {
    LocalTime {
        epoch_ms: 1_741_064_767_089,
        year: 2025,
        month: 3,
        day: 4,
        hour: 5,
        minute: 6,
        second: 7,
        millisecond: 89,
    }
}

fn entry_level(name: &str, pid: u32, path: &str) -> AncestorLevel {
    AncestorLevel { name: name.to_string(), pid, path: path.to_string() }
}

fn entry(ancestry: Vec<AncestorLevel>) -> LogEntry {
    LogEntry {
        timestamp: entry_stamp(),
        event_type: "CREATED".to_string(),
        process_name: "powershell".to_string(),
        process_id: 4242,
        process_path: "C:\\Windows\\powershell.exe".to_string(),
        window_title: "Windows PowerShell".to_string(),
        window_class: "ConsoleWindowClass".to_string(),
        command_line: None,
        ancestry,
    }
}

#[test]
fn file_rendering_with_hierarchy() {
    let e = entry(vec![
        entry_level("explorer", 1000, "C:\\Windows\\explorer.exe"),
        entry_level("userinit", 900, "Access denied"),
        entry_level("winlogon", 800, ""),
    ]);
    let expected = format!(
        "{}\n[2025-03-04 05:06:07.089] ══ CREATED ══\n\
         \x20 Process:     powershell (PID: 4242)\n\
         \x20 Path:        C:\\Windows\\powershell.exe\n\
         \x20 Title:       Windows PowerShell\n\
         \x20 Class:       ConsoleWindowClass\n\
         \x20 ── PROCESS HIERARCHY ──\n\
         \x20 ├─ Parent:           explorer (PID: 1000)\n\
         \x20 │  Path:             C:\\Windows\\explorer.exe\n\
         \x20 ├─ Grandparent:      userinit (PID: 900)\n\
         \x20 └─ Great-Grandparent: winlogon (PID: 800)\n",
        "─".repeat(80)
    );
    assert_eq!(e.format_file(), expected);
}

#[test]
fn file_rendering_without_parent_and_with_command() {
    let mut e = entry(vec![entry_level("System", 0, "")]);
    e.window_title = String::new();
    e.command_line = Some("powershell -nop".to_string());
    let expected = format!(
        "{}\n[2025-03-04 05:06:07.089] ══ CREATED ══\n\
         \x20 Process:     powershell (PID: 4242)\n\
         \x20 Path:        C:\\Windows\\powershell.exe\n\
         \x20 Title:       (no title)\n\
         \x20 Class:       ConsoleWindowClass\n\
         \x20 Command:     powershell -nop\n",
        "─".repeat(80)
    );
    assert_eq!(e.format_file(), expected);
}

#[test]
fn file_rendering_skips_levels_without_name() {
    let e = entry(vec![entry_level("explorer", 1000, ""), entry_level("", 900, "x")]);
    let text = e.format_file();
    assert!(text.ends_with("  ├─ Parent:           explorer (PID: 1000)\n"));
    assert!(!text.contains("Grandparent"));
}

#[test]
fn console_rendering() {
    let e = entry(vec![entry_level("explorer", 1000, "C:\\Windows\\explorer.exe")]);
    assert_eq!(
        e.format_console(),
        "[05:06:07.089] CREATED      powershell           Windows PowerShell\n                     Path: C:\\Windows\\powershell.exe [from: explorer (C:\\Windows\\explorer.exe)]"
    );
}

#[test]
fn console_rendering_shortens_title_and_hides_denied_path() {
    let mut e = entry(vec![entry_level("services", 600, "Access denied")]);
    e.window_title = "x".repeat(41);
    let text = e.format_console();
    assert!(text.contains(&format!(" {}...\n", "x".repeat(37))));
    assert!(text.ends_with(" [from: services]"));
}

#[test]
fn gui_rendering() {
    let e = entry(vec![entry_level("explorer", 1000, "C:\\Windows\\explorer.exe")]);
    assert_eq!(e.format_gui(), "05:06:07 [NEW] powershell: Windows PowerShell (from explorer)");
}

#[test]
fn gui_rendering_hides_parent_of_same_name() {
    let mut e = entry(vec![entry_level("PowerShell", 1000, "p")]);
    e.event_type = "Z-ORDER".to_string();
    e.window_title = String::new();
    assert_eq!(e.format_gui(), "05:06:07 [Z-O] powershell");
    assert_eq!(e.gui_line(false), "05:06:07 [Z-O] powershell (from PowerShell)");
}

#[test]
fn gui_rendering_shortens_long_names() {
    let mut e = entry(vec![entry_level("averyveryverylongparent", 1000, "p")]);
    e.process_name = "abcdefghijklmnopqrstuvwxyz".to_string();
    e.window_title = "t".repeat(30);
    e.event_type = "FOCUS".to_string();
    assert_eq!(
        e.format_gui(),
        format!("05:06:07 [FOC] abcdefghijklmnopq...: {}... (from averyveryver...)", "t".repeat(22))
    );
}

#[test]
fn gui_rendering_of_unknown_labels() {
    let mut e = entry(vec![entry_level("Unknown", 0, "")]);
    e.event_type = "XY".to_string();
    assert_eq!(e.format_gui(), "05:06:07 [XY ] powershell: Windows PowerShell");
    e.event_type = "SOMETHING".to_string();
    assert!(e.format_gui().starts_with("05:06:07 [SOM] "));
}
