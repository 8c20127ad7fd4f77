use lineage_core::domain::shared::{Clock, IdGenerator};
use lineage_core::infra::clock::{FixedClock, SequentialIds, UuidGenerator};

#[test]
fn random_ids_are_hyphenated_version_four_uuids() {
    let ids = UuidGenerator;
    let a = ids.new_id();
    let b = ids.new_id();
    assert_ne!(a, b);
    for id in [a, b] {
        let chars: Vec<char> = id.chars().collect();
        assert_eq!(chars.len(), 36);
        for (i, c) in chars.iter().enumerate() {
            if [8, 13, 18, 23].contains(&i) {
                assert_eq!(*c, '-');
            } else {
                assert!(c.is_ascii_digit() || ('a'..='f').contains(c), "{id}");
            }
        }
        assert_eq!(chars[14], '4');
        assert!(['8', '9', 'a', 'b'].contains(&chars[19]));
    }
}

#[test]
fn sequential_ids_count_from_one_and_the_fixed_clock_keeps_its_time() {
    let ids = SequentialIds::new();
    assert_eq!(ids.new_id(), "id-0001");
    assert_eq!(ids.new_id(), "id-0002");
    let clock = FixedClock::new("2026-08-13T09:00:00Z");
    assert_eq!(clock.now_rfc3339(), "2026-08-13T09:00:00Z");
}
