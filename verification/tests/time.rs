use cand::TimeProvider;

#[test]
fn null_time_elapsed_is_always_zero() {
    let t = <() as TimeProvider>::now();
    assert_eq!(t.elapsed(), 0);
    // Burn some real time; the null source still reports zero.
    let mut s = String::new();
    for _ in 0..10_000 {
        s.push('x');
    }
    assert_eq!(s.len(), 10_000);
    assert_eq!(t.elapsed(), 0);
}

#[test]
fn null_time_renders_no_text() {
    let t = <() as TimeProvider>::now();
    assert_eq!(t.render(), "");
}

#[test]
fn real_time_renders_humanized_with_colon() {
    let t = <std::time::Instant as TimeProvider>::now();
    let first = t.elapsed();
    let text = t.render();
    assert!(text.ends_with(':'));
    assert!(text.len() > 1);
    let second = t.elapsed();
    assert!(second >= first);
}
