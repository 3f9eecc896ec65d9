use timeflippers::time::Timestamp;
use timeflippers::timeflip::Entry;
use timeflippers::view::table::Position;
use timeflippers::view::{clock, contains_id, merge, resume_id, since};
use timeflippers::Facet;

fn entry(id: u32, pause: bool, time: i64, duration: u32) -> Entry {
    Entry { id, facet: Facet::new(1).unwrap(), pause, time: Timestamp(time), duration }
}

#[test]
fn clock_splits_seconds() {
    assert_eq!(clock(0), (0, 0, 0));
    assert_eq!(clock(59), (0, 0, 59));
    assert_eq!(clock(60), (0, 1, 0));
    assert_eq!(clock(3_599), (0, 59, 59));
    assert_eq!(clock(3_600), (1, 0, 0));
    assert_eq!(clock(90_061), (25, 1, 1));
    assert_eq!(clock(u64::MAX), (5_124_095_576_030_431, 0, 15));
}

#[test]
fn since_keeps_activity_after_the_date() {
    let entries = vec![
        entry(1, false, 100, 10),
        entry(2, true, 200, 10),
        entry(3, false, 150, 10),
        entry(4, false, 151, 10),
        entry(5, false, 99, 10),
        entry(6, false, 300, 10),
    ];
    assert_eq!(
        since(&entries, Timestamp(150)),
        vec![entry(4, false, 151, 10), entry(6, false, 300, 10)]
    );
    assert_eq!(since(&entries, Timestamp(1_000)), Vec::new());
    assert_eq!(since(&Vec::new(), Timestamp(0)), Vec::new());
}

#[test]
fn merge_lets_new_entries_replace_kept_ones() {
    let stored = vec![entry(1, false, 10, 10), entry(2, false, 20, 10), entry(3, false, 30, 10)];
    let update = vec![entry(3, false, 30, 45), entry(4, false, 40, 10), entry(2, true, 20, 11)];
    assert_eq!(
        merge(&stored, &update),
        vec![
            entry(1, false, 10, 10),
            entry(3, false, 30, 45),
            entry(4, false, 40, 10),
            entry(2, true, 20, 11),
        ]
    );
    assert_eq!(merge(&stored, &Vec::new()), stored);
    assert_eq!(merge(&Vec::new(), &update), update);
}

#[test]
fn reading_resumes_at_the_highest_id() {
    assert_eq!(resume_id(&Vec::new()), 0);
    assert_eq!(resume_id(&vec![entry(7, false, 1, 1)]), 7);
    assert_eq!(
        resume_id(&vec![entry(3, false, 1, 1), entry(9, false, 1, 1), entry(5, false, 1, 1)]),
        9
    );
    assert!(contains_id(&vec![entry(3, false, 1, 1)], 3));
    assert!(!contains_id(&vec![entry(3, false, 1, 1)], 4));
}

#[test]
fn table_corners() {
    assert_eq!(Position::Top.left(), "┌");
    assert_eq!(Position::Center.left(), "├");
    assert_eq!(Position::Bottom.left(), "└");
    assert_eq!(Position::Top.separator(), "┬");
    assert_eq!(Position::Center.separator(), "┼");
    assert_eq!(Position::Bottom.separator(), "┴");
    assert_eq!(Position::Top.right(), "┐");
    assert_eq!(Position::Center.right(), "┤");
    assert_eq!(Position::Bottom.right(), "┘");
}
