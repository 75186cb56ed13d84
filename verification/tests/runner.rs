//! The runner boundary's pure parts: construction, the naming rules, and the
//! parse of captured run output.

use aoc_dashboard::runner::Runner;
use aoc_dashboard::runner::RunError;
use aoc_dashboard::runner::day_package_name;
use aoc_dashboard::runner::input_file_path;
use aoc_dashboard::runner::parse_run_output;
use aoc_dashboard::text::usize_to_string;

#[test]
fn test_runner_creation() {
    let _runner = Runner::new("runner_scratch");
}

#[test]
fn runner_default_uses_conventional_dir() {
    let runner = Runner::default();
    assert_eq!(runner.dir_str(), "runner");
    let runner = Runner::new("elsewhere");
    assert_eq!(runner.dir_str(), "elsewhere");
}

#[test]
fn package_names_are_zero_padded() {
    assert_eq!(day_package_name(5), "day05");
    assert_eq!(day_package_name(25), "day25");
    assert_eq!(day_package_name(10), "day10");
}

#[test]
fn input_paths_follow_the_store_pattern() {
    assert_eq!(input_file_path(3, 2), "inputs/day03_part2.txt");
    assert_eq!(input_file_path(25, 1), "inputs/day25_part1.txt");
}

#[test]
fn final_line_number_parses() {
    assert_eq!(parse_run_output("1234"), Ok(1234));
    assert_eq!(parse_run_output("1234\n"), Ok(1234));
    assert_eq!(parse_run_output("building...\n1234\n"), Ok(1234));
    assert_eq!(parse_run_output("  42  \r\n"), Ok(42));
    assert_eq!(parse_run_output("+7"), Ok(7));
    assert_eq!(parse_run_output("0"), Ok(0));
}

#[test]
fn non_numeric_final_line_is_a_parse_error() {
    assert_eq!(parse_run_output("abc"), Err(RunError::ResultParse));
    assert_eq!(parse_run_output(""), Err(RunError::ResultParse));
    assert_eq!(parse_run_output("12a"), Err(RunError::ResultParse));
    assert_eq!(parse_run_output("1234\nabc"), Err(RunError::ResultParse));
    assert_eq!(parse_run_output("-5"), Err(RunError::ResultParse));
    assert_eq!(
        parse_run_output("999999999999999999999999999999"),
        Err(RunError::ResultParse)
    );
}

#[test]
fn run_results_render_into_the_pane() {
    let mut app = aoc_dashboard::app::App::new();
    app.apply_run_result(Ok(1234));
    assert_eq!(app.cargo_output, "Result: 1234");
    app.apply_run_result(Err(RunError::Execution));
    assert_eq!(app.cargo_output, "Error: Failed to run solution");
    app.apply_run_result(Err(RunError::ResultParse));
    assert_eq!(app.cargo_output, "Error: Failed to parse result as usize");
}

#[test]
fn error_messages_name_the_failure() {
    assert_eq!(RunError::Execution.message(), "Failed to run solution");
    assert_eq!(RunError::ResultParse.message(), "Failed to parse result as usize");
}

#[test]
fn rendered_results_parse_back() {
    for n in [0usize, 1, 9, 10, 42, 1234, usize::MAX] {
        assert_eq!(parse_run_output(&usize_to_string(n)), Ok(n));
    }
}

#[test]
fn decimal_rendering_matches() {
    assert_eq!(usize_to_string(0), "0");
    assert_eq!(usize_to_string(7), "7");
    assert_eq!(usize_to_string(1234), "1234");
    assert_eq!(usize_to_string(1000000), "1000000");
}
