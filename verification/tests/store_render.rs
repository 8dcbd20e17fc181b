use ts_presence::log::parse_event;
use ts_presence::users::process_line;
use ts_presence::users::OnlineUsers;

const CONNECT_ALICE: &str = "Apr 01 12:00:00 host ts3[1]: |INFO|...|client connected 'alice'(id:7)";
const DISCONNECT_ALICE: &str =
    "Apr 01 12:05:00 host ts3[1]: |INFO|...|client disconnected 'alice'(id:7)";

#[test]
fn empty_table_renders_bare_header() {
    let users = OnlineUsers::new();
    let report = users.get_status_display();
    assert_eq!(
        report,
        "---Online users---\n                  \n------------------"
    );
    for line in report.lines() {
        assert_eq!(line.chars().count(), 18);
    }
}

#[test]
fn connect_lists_the_client() {
    let mut users = OnlineUsers::new();
    let ev = parse_event(CONNECT_ALICE).unwrap();
    users.apply(&ev);
    assert_eq!(
        users.get_status_display(),
        "-----Online users------\n    12:00:00 01 Apr    \n-----------------------\n[12:00:00 01 Apr] alice"
    );
}

#[test]
fn connect_then_disconnect_omits_the_client() {
    let mut users = OnlineUsers::new();
    users.apply(&parse_event(CONNECT_ALICE).unwrap());
    users.apply(&parse_event(DISCONNECT_ALICE).unwrap());
    let report = users.get_status_display();
    assert!(!report.contains("alice"));
    assert_eq!(
        report,
        "---Online users---\n 12:05:00 01 Apr  \n------------------"
    );
}

#[test]
fn reconnect_updates_in_place() {
    let mut users = OnlineUsers::new();
    users.apply(&parse_event(CONNECT_ALICE).unwrap());
    let later = "Apr 01 12:09:00 host ts3[1]: |INFO|...|client connected 'alice'(id:7)";
    users.apply(&parse_event(later).unwrap());
    let report = users.get_status_display();
    assert_eq!(report.matches("alice").count(), 1);
    assert!(report.contains("[12:09:00 01 Apr] alice"));
    assert!(!report.contains("[12:00:00 01 Apr] alice"));
}

#[test]
fn two_clients_list_in_insertion_order() {
    let mut users = OnlineUsers::new();
    users.apply(&parse_event(CONNECT_ALICE).unwrap());
    let bob = "Apr 01 12:01:00 host ts3[1]: |INFO|...|client connected 'bob'(id:8)";
    users.apply(&parse_event(bob).unwrap());
    assert_eq!(
        users.get_status_display(),
        "-----Online users------\n    12:01:00 01 Apr    \n-----------------------\n[12:00:00 01 Apr] alice\n[12:01:00 01 Apr] bob"
    );
}

#[test]
fn header_lines_match_longest_content_line() {
    let mut users = OnlineUsers::new();
    let long = "Apr 01 12:00:00 h |INFO|client connected 'a client with a long name'(id:9)";
    users.apply(&parse_event(long).unwrap());
    let report = users.get_status_display();
    let lines: Vec<&str> = report.lines().collect();
    assert_eq!(lines.len(), 4);
    let width = lines[3].chars().count();
    assert!(width > 18);
    assert_eq!(lines[0].chars().count(), width);
    assert_eq!(lines[1].chars().count(), width);
    assert_eq!(lines[2].chars().count(), width);
    assert_eq!(lines[3], "[12:00:00 01 Apr] a client with a long name");
}

#[test]
fn width_counts_characters_not_bytes() {
    let mut users = OnlineUsers::new();
    let line = "Apr 01 12:00:00 h |INFO|client connected 'ééééé'(id:3)";
    users.apply(&parse_event(line).unwrap());
    let report = users.get_status_display();
    let lines: Vec<&str> = report.lines().collect();
    // "[12:00:00 01 Apr] ééééé" is 23 characters, 28 bytes
    assert_eq!(lines[3].chars().count(), 23);
    assert_eq!(lines[0].chars().count(), 23);
    assert_eq!(lines[0], "-----Online users------");
}

#[test]
fn rendering_twice_is_byte_identical() {
    let mut users = OnlineUsers::new();
    users.apply(&parse_event(CONNECT_ALICE).unwrap());
    let first = users.get_status_display();
    let second = users.get_status_display();
    assert_eq!(first.into_bytes(), second.into_bytes());
}

#[test]
fn snapshot_is_independent_of_later_writes() {
    let mut users = OnlineUsers::new();
    users.apply(&parse_event(CONNECT_ALICE).unwrap());
    let snap = users.snapshot();
    let before = snap.get_status_display();
    users.apply(&parse_event(DISCONNECT_ALICE).unwrap());
    assert_eq!(snap.get_status_display(), before);
    assert_ne!(users.get_status_display(), before);
}

#[test]
fn process_line_drives_the_pipeline() {
    let mut users = OnlineUsers::new();
    assert!(process_line(&mut users, "Apr 01 11:59:59 host booting up").is_none());
    let out = process_line(&mut users, CONNECT_ALICE).expect("a connect emits a report");
    assert!(out.contains("[12:00:00 01 Apr] alice"));
    let out = process_line(&mut users, DISCONNECT_ALICE).expect("a disconnect emits a report");
    assert!(!out.contains("alice"));
    assert!(process_line(&mut users, "").is_none());
    assert_eq!(
        users.get_status_display(),
        "---Online users---\n 12:05:00 01 Apr  \n------------------"
    );
}

#[test]
fn interleaved_snapshots_observe_prefix_states() {
    let writes = [
        CONNECT_ALICE,
        "Apr 01 12:01:00 host ts3[1]: |INFO|...|client connected 'bob'(id:8)",
        DISCONNECT_ALICE,
        "Apr 01 12:06:00 host ts3[1]: |INFO|...|client connected 'carol'(id:9)",
    ];
    // One writer applies the events in order; a reader's snapshot taken
    // after k writes must render exactly like a store that saw only that
    // prefix, and never show an online client without a since-timestamp.
    let mut writer = OnlineUsers::new();
    let mut snapshots = vec![writer.snapshot()];
    for line in &writes {
        writer.apply(&parse_event(line).unwrap());
        snapshots.push(writer.snapshot());
    }
    for (k, snap) in snapshots.iter().enumerate() {
        let mut prefix_store = OnlineUsers::new();
        for line in &writes[..k] {
            prefix_store.apply(&parse_event(line).unwrap());
        }
        let report = snap.get_status_display();
        assert_eq!(report, prefix_store.get_status_display());
        // every listed client line carries its bracketed since-timestamp
        for line in report.lines().skip(3) {
            assert!(line.starts_with('['));
            assert!(line.contains("] "));
        }
    }
}
