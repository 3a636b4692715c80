use cand::Logger;
use cand::MemorySink;
use cand::MultiLogger;
use cand::StatusLevel;

fn strip_colors(s: &str) -> String {
    s.replace("\x1b[92m", "")
        .replace("\x1b[94m", "")
        .replace("\x1b[91m", "")
        .replace("\x1b[93m", "")
        .replace("\x1b[31m", "")
        .replace("\x1b[0m", "")
}

#[test]
fn end_to_end_null_time_memory_sink() {
    let mut lg = Logger((), MemorySink::new());
    lg.log_ok("ready");
    lg.log_err("boom");
    assert_eq!(lg.1.records.len(), 2);
    assert!(lg.1.records[0].0 == StatusLevel::Okay);
    assert!(lg.1.records[1].0 == StatusLevel::Error);
    let first = strip_colors(&lg.1.records[0].1);
    let second = strip_colors(&lg.1.records[1].1);
    assert_eq!(first, "O&: ready\n");
    assert_eq!(second, "E&: boom\n");
    let body0 = first
        .strip_prefix("O&: ")
        .and_then(|r| r.strip_suffix('\n'))
        .unwrap();
    let body1 = second
        .strip_prefix("E&: ")
        .and_then(|r| r.strip_suffix('\n'))
        .unwrap();
    assert_eq!(body0, "ready");
    assert_eq!(body1, "boom");
}

#[test]
fn record_text_with_colors_is_exact() {
    let mut lg = Logger((), MemorySink::new());
    lg.log_ok("ready");
    assert_eq!(
        lg.1.records[0].1,
        "\x1b[92mO&:\x1b[0m \x1b[92mready\x1b[0m\n"
    );
}

#[test]
fn all_severity_helpers_record_their_level() {
    let mut lg = Logger((), MemorySink::new());
    lg.log_ok("a");
    lg.log_info("b");
    lg.log_warn("c");
    lg.log_err("d");
    lg.log(StatusLevel::Critical, "e");
    lg.logdisp(StatusLevel::Info, "f");
    let levels: Vec<StatusLevel> = lg.1.records.iter().map(|r| r.0).collect();
    assert!(
        levels
            == vec![
                StatusLevel::Okay,
                StatusLevel::Info,
                StatusLevel::Warning,
                StatusLevel::Error,
                StatusLevel::Critical,
                StatusLevel::Info,
            ]
    );
}

#[test]
fn try_get_success_writes_nothing_and_hands_engine_back() {
    let lg = Logger((), MemorySink::new());
    let (value, mut lg) = lg.try_get(Ok::<u64, String>(42), |_eng| unreachable!());
    assert_eq!(value, 42);
    assert_eq!(lg.1.records.len(), 0);
    lg.log_ok("still usable");
    assert_eq!(lg.1.records.len(), 1);
}

#[test]
fn try_run_error_logs_once_and_returns() {
    let mut lg = Logger((), MemorySink::new());
    lg.try_run::<u64>(Err(String::from("disk full")));
    assert_eq!(lg.1.records.len(), 1);
    assert!(lg.1.records[0].0 == StatusLevel::Error);
    assert!(lg.1.records[0].1.contains("disk full"));
    lg.try_run(Ok::<u64, String>(9));
    assert_eq!(lg.1.records.len(), 1);
}

#[test]
fn multi_clone_is_independent_snapshot() {
    let mut orig = MultiLogger((), MemorySink::new());
    orig.log_ok("first");
    let mut snap = orig.clone();
    assert_eq!(snap.1.records.len(), 1);
    snap.log_err("second");
    assert_eq!(snap.1.records.len(), 2);
    assert_eq!(orig.1.records.len(), 1);
    orig.log_info("third");
    assert_eq!(orig.1.records.len(), 2);
    assert!(orig.1.records[1].0 == StatusLevel::Info);
}

#[test]
fn multi_try_get_success_leaves_original_untouched() {
    let mut orig = MultiLogger((), MemorySink::new());
    orig.log_ok("before");
    let (value, mut snap) = orig.try_get(Ok::<&str, String>("payload"), |_eng| unreachable!());
    assert_eq!(value, "payload");
    assert_eq!(orig.1.records.len(), 1);
    assert_eq!(snap.1.records.len(), 1);
    snap.log_warn("after");
    assert_eq!(snap.1.records.len(), 2);
    assert_eq!(orig.1.records.len(), 1);
}

#[test]
fn multi_try_run_error_logs_once() {
    let mut lg = MultiLogger((), MemorySink::new());
    lg.try_run::<u64>(Err(String::from("oops")));
    assert_eq!(lg.1.records.len(), 1);
    assert!(lg.1.records[0].0 == StatusLevel::Error);
    assert!(lg.1.records[0].1.contains("oops"));
}

#[test]
fn records_are_emitted_in_call_order() {
    let mut lg = Logger((), MemorySink::new());
    for i in 0..5u32 {
        lg.log_info(&format!("msg{i}"));
    }
    for i in 0..5usize {
        assert!(lg.1.records[i].1.contains(&format!("msg{i}")));
    }
}

#[test]
fn console_logger_accepts_calls() {
    let mut lg = cand::Logger((), cand::ConsoleSink::new());
    lg.log_ok("console ready");
    lg.log_err("console boom");
}
