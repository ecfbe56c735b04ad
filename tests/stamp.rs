use dfile::stamp::{format_time, stamp_of, ClockTime};
use dfile::setup::{export_line, rc_file_for};
use dfile::text::contains;

fn sample() -> ClockTime {
    ClockTime { sec: 9, min: 8, hour: 7, mday: 5, mon: 0, year: 120 }
}

#[test]
fn stamp_of_sample_time() {
    assert_eq!(stamp_of(&sample()).unwrap(), "Jan 05, 2020 (07:08:09)");
}

#[test]
fn stamp_of_december() {
    let t = ClockTime { sec: 59, min: 30, hour: 23, mday: 31, mon: 11, year: 99 };
    assert_eq!(stamp_of(&t).unwrap(), "Dec 31, 1999 (23:30:59)");
}

#[test]
fn stamp_refuses_month_out_of_range() {
    let t = ClockTime { mon: 12, ..sample() };
    assert_eq!(stamp_of(&t), None);
    let t = ClockTime { mon: -1, ..sample() };
    assert_eq!(stamp_of(&t), None);
}

#[test]
fn stamp_refuses_year_that_overflows() {
    let t = ClockTime { year: i32::MAX, ..sample() };
    assert_eq!(stamp_of(&t), None);
}

#[test]
fn format_refuses_other_conversions() {
    assert_eq!(format_time("%a", &sample()), None);
    assert_eq!(format_time("100%", &sample()), None);
    assert_eq!(format_time("%Y-%d", &sample()).unwrap(), "2020-05");
}

#[test]
fn contains_finds_phrases() {
    assert!(contains("On branch master\nnothing to commit, working tree clean", "nothing to commit"));
    assert!(!contains("nothing to comm", "nothing to commit"));
    assert!(contains("abc", ""));
    assert!(!contains("", "a"));
}

#[test]
fn rc_file_for_known_shells() {
    assert_eq!(rc_file_for("/home/a", "bash").unwrap(), "/home/a/.bashrc");
    assert_eq!(rc_file_for("/home/a", "zsh").unwrap(), "/home/a/.zshrc");
    assert_eq!(rc_file_for("/home/a", "fish"), None);
}

#[test]
fn export_line_sets_path() {
    assert_eq!(export_line("/home/a/dots"), "export DOTFILE_PATH=/home/a/dots");
}
