use cand::MemorySink;
use cand::MultiULogger;
use cand::StatusLevel;
use cand::ULogger;

#[test]
fn one_record_becomes_six_fragments_in_order() {
    let mut lg = ULogger((), MemorySink::new());
    lg.log_ok("hi");
    assert_eq!(lg.1.records.len(), 6);
    let texts: Vec<&str> = lg.1.records.iter().map(|r| r.1.as_str()).collect();
    assert_eq!(
        texts,
        vec!["\x1b[92mO&:\x1b[0m", "0ns", "\x1b[92m", "hi", "\x1b[0m", "\n"]
    );
    for r in lg.1.records.iter() {
        assert!(r.0 == StatusLevel::Okay);
    }
}

#[test]
fn fragments_of_two_records_stay_contiguous() {
    let mut lg = ULogger((), MemorySink::new());
    lg.log_ok("first");
    lg.log_err("second");
    assert_eq!(lg.1.records.len(), 12);
    for r in lg.1.records[..6].iter() {
        assert!(r.0 == StatusLevel::Okay);
    }
    for r in lg.1.records[6..].iter() {
        assert!(r.0 == StatusLevel::Error);
    }
    assert_eq!(lg.1.records[3].1, "first");
    assert_eq!(lg.1.records[9].1, "second");
}

#[test]
fn compact_try_get_success_writes_nothing() {
    let lg = ULogger((), MemorySink::new());
    let (value, mut lg) = lg.try_get(Ok::<u64, String>(5), |_eng| unreachable!());
    assert_eq!(value, 5);
    assert_eq!(lg.1.records.len(), 0);
    lg.log_info("on we go");
    assert_eq!(lg.1.records.len(), 6);
}

#[test]
fn compact_try_run_error_logs_fragments() {
    let mut lg = ULogger((), MemorySink::new());
    lg.try_run::<u64>(Err(String::from("bad crc")));
    assert_eq!(lg.1.records.len(), 6);
    assert!(lg.1.records[0].0 == StatusLevel::Error);
    assert_eq!(lg.1.records[3].1, "bad crc");
}

#[test]
fn multi_compact_clone_is_independent() {
    let mut orig = MultiULogger((), MemorySink::new());
    orig.log_warn("one");
    let mut snap = orig.clone();
    snap.log_err("two");
    assert_eq!(orig.1.records.len(), 6);
    assert_eq!(snap.1.records.len(), 12);
}

#[test]
fn multi_compact_try_get_success_returns_snapshot() {
    let mut orig = MultiULogger((), MemorySink::new());
    let (value, mut snap) = orig.try_get(Ok::<u32, String>(3), |_eng| unreachable!());
    assert_eq!(value, 3);
    assert_eq!(orig.1.records.len(), 0);
    snap.log_ok("go");
    assert_eq!(snap.1.records.len(), 6);
    assert_eq!(orig.1.records.len(), 0);
}
