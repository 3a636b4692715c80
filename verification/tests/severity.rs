use cand::StatusLevel;

const LEVELS: [StatusLevel; 5] = [
    StatusLevel::Okay,
    StatusLevel::Info,
    StatusLevel::Error,
    StatusLevel::Warning,
    StatusLevel::Critical,
];

#[test]
fn tags_are_fixed_and_distinct() {
    let expected = ["O", "I", "E", "W", "C"];
    for (level, want) in LEVELS.iter().zip(expected.iter()) {
        assert_eq!(level.tag(), *want);
        // A second call returns the same tag: the mapping never changes.
        assert_eq!(level.tag(), *want);
    }
    for i in 0..LEVELS.len() {
        for j in 0..LEVELS.len() {
            if i != j {
                assert_ne!(LEVELS[i].tag(), LEVELS[j].tag());
            }
        }
    }
}

#[test]
fn colors_are_fixed_and_distinct() {
    let expected = ["\x1b[92m", "\x1b[94m", "\x1b[91m", "\x1b[93m", "\x1b[31m"];
    for (level, want) in LEVELS.iter().zip(expected.iter()) {
        assert_eq!(level.to_color(), *want);
        assert_eq!(level.to_color(), *want);
    }
    for i in 0..LEVELS.len() {
        for j in 0..LEVELS.len() {
            if i != j {
                assert_ne!(LEVELS[i].to_color(), LEVELS[j].to_color());
            }
        }
    }
}

#[test]
fn header_is_colored_tag_with_separator() {
    assert_eq!(StatusLevel::Okay.header(), "\x1b[92mO&:\x1b[0m");
    assert_eq!(StatusLevel::Critical.header(), "\x1b[31mC&:\x1b[0m");
}
