use pc_watcher::process::{
    needs_limited_open, parent_to_open,
    ancestor_level, file_name, file_stem, get_command_line, parent_pid_of, process_name_from_path,
    process_name_from_snapshot, AncestorLevel, ProcessInfo, SnapshotEntry,
};

fn row(pid: u32, parent_pid: u32, exe: &str) -> SnapshotEntry {
    SnapshotEntry { pid, parent_pid, exe_file: exe.to_string() }
}

fn proc_level(name: &str, pid: u32, path: &str) -> AncestorLevel {
    AncestorLevel { name: name.to_string(), pid, path: path.to_string() }
}

#[test]
fn names_from_windows_paths() {
    assert_eq!(file_name("C:\\Windows\\explorer.exe"), "explorer.exe");
    assert_eq!(file_name("C:/tools/app.exe"), "app.exe");
    assert_eq!(file_name("plain"), "plain");
    assert_eq!(file_stem("explorer.exe"), "explorer");
    assert_eq!(file_stem("archive.tar.gz"), "archive.tar");
    assert_eq!(file_stem(".hidden"), ".hidden");
    assert_eq!(file_stem("noext"), "noext");
    assert_eq!(process_name_from_path("C:\\Windows\\System32\\cmd.exe"), "cmd");
    assert_eq!(process_name_from_path(""), "Unknown");
    assert_eq!(process_name_from_path("C:\\dir\\"), "Unknown");
}

#[test]
fn snapshot_lookups() {
    let rows = vec![row(4, 0, "System"), row(1000, 900, "explorer.exe"), row(1000, 5, "dup.exe")];
    assert_eq!(parent_pid_of(&rows, 1000), Some(900));
    assert_eq!(parent_pid_of(&rows, 4), Some(0));
    assert_eq!(parent_pid_of(&rows, 77), None);
    assert_eq!(process_name_from_snapshot(&rows, 1000), Some("explorer".to_string()));
    assert_eq!(process_name_from_snapshot(&rows, 77), None);
}

#[test]
fn unknown_owner() {
    let info = ProcessInfo::identify(0, "t".to_string(), "c".to_string(), None, None);
    assert_eq!(info.process_name, "Unknown");
    assert_eq!(info.process_path, "Unknown");
    assert_eq!(info.window_title, "");
    assert_eq!(info.next_ancestor_query(), None);
    assert!(info.ancestry.is_empty());
}

#[test]
fn identity_with_full_rights() {
    let info = ProcessInfo::identify(
        42,
        "Title".to_string(),
        "Class".to_string(),
        Some("C:\\Apps\\tool.exe".to_string()),
        None,
    );
    assert_eq!(info.process_name, "tool");
    assert_eq!(info.process_path, "C:\\Apps\\tool.exe");
    assert_eq!(info.window_title, "Title");
    assert_eq!(info.window_class, "Class");
    assert_eq!(info.command_line, None);
    assert_eq!(info.next_ancestor_query(), Some(42));
}

#[test]
fn identity_with_query_rights_only() {
    let info = ProcessInfo::identify(
        42,
        String::new(),
        String::new(),
        None,
        Some("C:\\Apps\\svc.exe".to_string()),
    );
    assert_eq!(info.process_name, "svc");
    assert_eq!(info.process_path, "C:\\Apps\\svc.exe");
}

// Privilege denial on every open: sentinels for the process, ancestry from
// the process list.
#[test]
fn privilege_denied_uses_sentinels_and_snapshot() {
    let rows = vec![row(42, 1000, "secret.exe"), row(1000, 900, "explorer.exe"), row(900, 0, "winlogon.exe")];
    let mut info =
        ProcessInfo::identify(42, "w".to_string(), "c".to_string(), None, Some(String::new()));
    assert_eq!(info.process_name, "Access denied");
    assert!(info.process_path.contains("Access denied"));
    while let Some(child) = info.next_ancestor_query() {
        let lvl = ancestor_level(&rows, child, None);
        info.push_ancestor(lvl);
    }
    assert_eq!(info.ancestry.len(), 3);
    assert_eq!(info.ancestry[0].name, "explorer");
    assert_eq!(info.ancestry[0].pid, 1000);
    assert_eq!(info.ancestry[0].path, "Access denied");
    assert_eq!(info.ancestry[1].name, "winlogon");
    assert_eq!(info.ancestry[1].pid, 900);
    assert_eq!(info.ancestry[2].name, "System");
    assert_eq!(info.ancestry[2].pid, 0);
    assert_eq!(info.ancestry[2].path, "");
}

#[test]
fn ancestor_levels() {
    let rows = vec![row(42, 1000, "a.exe"), row(7, 0, "idle"), row(8, 99, "x.exe")];
    let opened = ancestor_level(&rows, 42, Some("C:\\Windows\\explorer.exe".to_string()));
    assert_eq!((opened.name.as_str(), opened.pid, opened.path.as_str()), ("explorer", 1000, "C:\\Windows\\explorer.exe"));
    let listed_missing = ancestor_level(&rows, 42, None);
    assert_eq!((listed_missing.name.as_str(), listed_missing.pid, listed_missing.path.as_str()), ("Access denied", 1000, ""));
    let system = ancestor_level(&rows, 7, Some("ignored".to_string()));
    assert_eq!((system.name.as_str(), system.pid, system.path.as_str()), ("System", 0, ""));
    let unknown = ancestor_level(&rows, 5, None);
    assert_eq!((unknown.name.as_str(), unknown.pid, unknown.path.as_str()), ("Unknown", 0, ""));
}

#[test]
fn walk_stops_at_three_levels_even_in_a_cycle() {
    let rows = vec![row(1, 2, "a.exe"), row(2, 1, "b.exe")];
    let mut info = ProcessInfo::identify(1, String::new(), String::new(), Some("a.exe".to_string()), None);
    let mut steps = 0;
    while let Some(child) = info.next_ancestor_query() {
        info.push_ancestor(ancestor_level(&rows, child, None));
        steps += 1;
        assert!(steps <= 3);
    }
    assert_eq!(info.ancestry.len(), 3);
    assert_eq!(info.ancestry[0].pid, 2);
    assert_eq!(info.ancestry[1].pid, 1);
    assert_eq!(info.ancestry[2].pid, 2);
}

#[test]
fn walk_stops_after_a_level_without_pid() {
    let rows = vec![row(42, 77, "a.exe")];
    let mut info = ProcessInfo::identify(42, String::new(), String::new(), Some("a.exe".to_string()), None);
    while let Some(child) = info.next_ancestor_query() {
        info.push_ancestor(ancestor_level(&rows, child, None));
    }
    // parent 77 is not listed: its level has a pid, the next lookup finds nothing
    assert_eq!(info.ancestry.len(), 2);
    assert_eq!(info.ancestry[0].name, "Access denied");
    assert_eq!(info.ancestry[1].name, "Unknown");
    assert_eq!(info.ancestry[1].pid, 0);
}

#[test]
fn copy_with_fresh_window() {
    let mut info = ProcessInfo::identify(9, "old".to_string(), "K".to_string(), Some("p.exe".to_string()), None);
    info.push_ancestor(proc_level("explorer", 5, "e.exe"));
    let copy = info.with_window("new".to_string(), "K2".to_string());
    assert_eq!(copy.window_title, "new");
    assert_eq!(copy.window_class, "K2");
    assert_eq!(copy.process_name, "p");
    assert_eq!(copy.ancestry.len(), 1);
    assert_eq!(copy.ancestry[0].name, "explorer");
    let cloned = info.clone();
    assert_eq!(cloned.window_title, "old");
    assert_eq!(get_command_line(9), None);
}

#[test]
fn which_processes_are_opened() {
    assert!(needs_limited_open(&None));
    assert!(!needs_limited_open(&Some(String::new())));
    let rows = vec![row(42, 1000, "a.exe"), row(7, 0, "idle")];
    assert_eq!(parent_to_open(&rows, 42), Some(1000));
    assert_eq!(parent_to_open(&rows, 7), None);
    assert_eq!(parent_to_open(&rows, 99), None);
}
