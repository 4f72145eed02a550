use node_supervisor::errors::NodeError;
use node_supervisor::supervisor::NodeProcess;

#[test]
fn captured_lines_are_visible_in_order() {
    let mut process = NodeProcess::new();
    process.append_log(String::from("node starting"));
    process.append_error_log(String::from("bind warning"));
    process.append_log(String::from("node ready"));
    assert_eq!(
        process.get_logs(),
        vec!["node starting", "Error: bind warning", "node ready"]
    );
}

#[test]
fn interleaved_readers_lose_nothing() {
    // The two stream readers interleave arbitrarily; each serialization is
    // some order of appends, and every line must stay visible.
    let mut process = NodeProcess::new();
    for i in 0..50u32 {
        if i % 2 == 0 {
            process.append_log(format!("out {}", i));
        } else {
            process.append_error_log(format!("err {}", i));
        }
    }
    let logs = process.get_logs();
    assert_eq!(logs.len(), 50);
    for i in 0..50usize {
        if i % 2 == 0 {
            assert_eq!(logs[i], format!("out {}", i));
        } else {
            assert_eq!(logs[i], format!("Error: err {}", i));
        }
    }
}

#[test]
fn stop_on_idle_supervisor_leaves_logs_alone() {
    let mut process = NodeProcess::new();
    process.append_log(String::from("left over"));
    assert_eq!(process.stop(), Err(NodeError::NotRunning));
    assert_eq!(process.get_logs(), vec!["left over"]);
}

#[test]
fn file_entries_are_appended_after_memory_entries() {
    let mut process = NodeProcess::new();
    process.append_log(String::from("in memory"));
    let file_lines = vec![String::from("from file 1"), String::from("from file 2")];
    assert_eq!(
        process.get_logs_with_file(&file_lines),
        vec!["in memory", "from file 1", "from file 2"]
    );
}

#[test]
fn logs_text_joins_with_newlines() {
    let mut process = NodeProcess::new();
    assert_eq!(process.logs_text(), "");
    process.append_log(String::from("one"));
    assert_eq!(process.logs_text(), "one");
    process.append_log(String::from("two"));
    process.append_error_log(String::from("three"));
    assert_eq!(process.logs_text(), "one\ntwo\nError: three");
}
