//! Day and part label parsing and rendering.

use aoc_dashboard::day::Day;
use aoc_dashboard::day::Part;

#[test]
fn part_labels_parse_case_insensitively() {
    assert_eq!(Part::from_str("1"), Ok(Part::Part1));
    assert_eq!(Part::from_str("part1"), Ok(Part::Part1));
    assert_eq!(Part::from_str("PART1"), Ok(Part::Part1));
    assert_eq!(Part::from_str("2"), Ok(Part::Part2));
    assert_eq!(Part::from_str("Part2"), Ok(Part::Part2));
    assert!(Part::from_str("3").is_err());
    assert!(Part::from_str("part").is_err());
    assert!(Part::from_str("").is_err());
}

#[test]
fn part_labels_render() {
    assert_eq!(Part::Part1.as_str(), "part1");
    assert_eq!(Part::Part2.as_str(), "part2");
}

#[test]
fn day_labels_parse_with_and_without_padding() {
    assert_eq!(Day::from_str("1"), Ok(Day::Day01));
    assert_eq!(Day::from_str("01"), Ok(Day::Day01));
    assert_eq!(Day::from_str("9"), Ok(Day::Day09));
    assert_eq!(Day::from_str("09"), Ok(Day::Day09));
    assert_eq!(Day::from_str("10"), Ok(Day::Day10));
    assert_eq!(Day::from_str("25"), Ok(Day::Day25));
    assert!(Day::from_str("0").is_err());
    assert!(Day::from_str("00").is_err());
    assert!(Day::from_str("26").is_err());
    assert!(Day::from_str("123").is_err());
    assert!(Day::from_str("a").is_err());
    assert!(Day::from_str("").is_err());
}

#[test]
fn day_labels_render_zero_padded() {
    assert_eq!(Day::Day01.as_str(), "01");
    assert_eq!(Day::Day09.as_str(), "09");
    assert_eq!(Day::Day10.as_str(), "10");
    assert_eq!(Day::Day25.as_str(), "25");
}

#[test]
fn input_error_message_reads_like_its_debug_form() {
    let e = aoc_dashboard::day::InputError;
    assert_eq!(e.message(), "InputError");
}
