//! Day and part labels: the 25 day identities and the two parts, with the
//! parses the command line accepts and the labels the runner scaffolding
//! writes.

use vstd::prelude::*;
use crate::text::digit_val;
use crate::text::is_dec_digit;
use crate::text::lower_seq;
use crate::text::lowercase_chars;
use crate::text::chars_eq_str;
use crate::text::string_to_chars;

verus! {

/// Which half of a day's challenge.
#[derive(Debug, Clone, PartialEq, Eq)]
pub enum Part {
    Part1,
    Part2,
}

/// A day or part label that parses to nothing.
#[derive(Debug, Clone, Copy, PartialEq, Eq)]
pub struct InputError;

impl InputError {
    /// Renders the error the way its debug form reads.
    pub fn message(&self) -> (s: String)
        ensures
            s@ == "InputError"@,
    {
        "InputError".to_owned()
    }
}

/// The part label the runner scaffolding uses.
pub open spec fn part_label(p: Part) -> Seq<char> {
    match p {
        Part::Part1 => "part1"@,
        Part::Part2 => "part2"@,
    }
}

/// What a part label parses to: the digit or the `part`-prefixed word, ASCII
/// case ignored; anything else is refused.
pub open spec fn spec_parse_part(s: Seq<char>) -> Result<Part, InputError> {
    if lower_seq(s) == "1"@ || lower_seq(s) == "part1"@ {
        Result::Ok(Part::Part1)
    } else if lower_seq(s) == "2"@ || lower_seq(s) == "part2"@ {
        Result::Ok(Part::Part2)
    } else {
        Result::Err(InputError)
    }
}

impl Part {
    /// Parses a part label, exactly as `spec_parse_part` says.
    pub fn from_str(s: &str) -> (r: Result<Part, InputError>)
        ensures
            r == spec_parse_part(s@),
    {
        let v = string_to_chars(s);
        let lv = lowercase_chars(&v);
        if chars_eq_str(&lv, "1") || chars_eq_str(&lv, "part1") {
            Ok(Part::Part1)
        } else if chars_eq_str(&lv, "2") || chars_eq_str(&lv, "part2") {
            Ok(Part::Part2)
        } else {
            Err(InputError)
        }
    }

    /// The label the runner scaffolding writes for this part.
    pub fn as_str(&self) -> (r: &'static str)
        ensures
            r@ == part_label(*self),
    {
        match self {
            Part::Part1 => "part1",
            Part::Part2 => "part2",
        }
    }
}

/// One of the 25 days.
#[derive(Debug, Clone, PartialEq, Eq)]
pub enum Day {
    Day01,
    Day02,
    Day03,
    Day04,
    Day05,
    Day06,
    Day07,
    Day08,
    Day09,
    Day10,
    Day11,
    Day12,
    Day13,
    Day14,
    Day15,
    Day16,
    Day17,
    Day18,
    Day19,
    Day20,
    Day21,
    Day22,
    Day23,
    Day24,
    Day25,
}

/// The day with number `n`.
pub open spec fn day_of(n: int) -> Day {
    if n == 1 {
        Day::Day01
    } else if n == 2 {
        Day::Day02
    } else if n == 3 {
        Day::Day03
    } else if n == 4 {
        Day::Day04
    } else if n == 5 {
        Day::Day05
    } else if n == 6 {
        Day::Day06
    } else if n == 7 {
        Day::Day07
    } else if n == 8 {
        Day::Day08
    } else if n == 9 {
        Day::Day09
    } else if n == 10 {
        Day::Day10
    } else if n == 11 {
        Day::Day11
    } else if n == 12 {
        Day::Day12
    } else if n == 13 {
        Day::Day13
    } else if n == 14 {
        Day::Day14
    } else if n == 15 {
        Day::Day15
    } else if n == 16 {
        Day::Day16
    } else if n == 17 {
        Day::Day17
    } else if n == 18 {
        Day::Day18
    } else if n == 19 {
        Day::Day19
    } else if n == 20 {
        Day::Day20
    } else if n == 21 {
        Day::Day21
    } else if n == 22 {
        Day::Day22
    } else if n == 23 {
        Day::Day23
    } else if n == 24 {
        Day::Day24
    } else {
        Day::Day25
    }
}

/// The zero-padded label of each day.
pub open spec fn day_label(d: Day) -> Seq<char> {
    match d {
        Day::Day01 => "01"@,
        Day::Day02 => "02"@,
        Day::Day03 => "03"@,
        Day::Day04 => "04"@,
        Day::Day05 => "05"@,
        Day::Day06 => "06"@,
        Day::Day07 => "07"@,
        Day::Day08 => "08"@,
        Day::Day09 => "09"@,
        Day::Day10 => "10"@,
        Day::Day11 => "11"@,
        Day::Day12 => "12"@,
        Day::Day13 => "13"@,
        Day::Day14 => "14"@,
        Day::Day15 => "15"@,
        Day::Day16 => "16"@,
        Day::Day17 => "17"@,
        Day::Day18 => "18"@,
        Day::Day19 => "19"@,
        Day::Day20 => "20"@,
        Day::Day21 => "21"@,
        Day::Day22 => "22"@,
        Day::Day23 => "23"@,
        Day::Day24 => "24"@,
        Day::Day25 => "25"@,
    }
}

/// What a day label parses to: one digit 1..=9, or two digits reading
/// 1..=25 (so a single leading zero is accepted); anything else is refused.
pub open spec fn spec_parse_day(s: Seq<char>) -> Result<Day, InputError> {
    if s.len() == 1 && is_dec_digit(s[0]) && digit_val(s[0]) >= 1 {
        Result::Ok(day_of(digit_val(s[0])))
    } else if s.len() == 2 && is_dec_digit(s[0]) && is_dec_digit(s[1]) && 1 <= digit_val(s[0]) * 10
        + digit_val(s[1]) <= 25 {
        Result::Ok(day_of(digit_val(s[0]) * 10 + digit_val(s[1])))
    } else {
        Result::Err(InputError)
    }
}

/// The day with number `n`, as `day_of` gives it.
fn day_from_number(n: u8) -> (d: Day)
    requires
        1 <= n <= 25,
    ensures
        d == day_of(n as int),
{
    match n {
        1 => Day::Day01,
        2 => Day::Day02,
        3 => Day::Day03,
        4 => Day::Day04,
        5 => Day::Day05,
        6 => Day::Day06,
        7 => Day::Day07,
        8 => Day::Day08,
        9 => Day::Day09,
        10 => Day::Day10,
        11 => Day::Day11,
        12 => Day::Day12,
        13 => Day::Day13,
        14 => Day::Day14,
        15 => Day::Day15,
        16 => Day::Day16,
        17 => Day::Day17,
        18 => Day::Day18,
        19 => Day::Day19,
        20 => Day::Day20,
        21 => Day::Day21,
        22 => Day::Day22,
        23 => Day::Day23,
        24 => Day::Day24,
        _ => Day::Day25,
    }
}

/// Numeric value of a digit character.
fn digit_val_exec(c: char) -> (d: u8)
    requires
        is_dec_digit(c),
    ensures
        d == digit_val(c),
        d < 10,
{
    (c as u32 - '0' as u32) as u8
}

/// Decimal digit test matching `is_dec_digit`.
fn is_dec_digit_exec(c: char) -> (r: bool)
    ensures
        r == is_dec_digit(c),
{
    '0' as u32 <= c as u32 && c as u32 <= '9' as u32
}

impl Day {
    /// Parses a day label, exactly as `spec_parse_day` says.
    pub fn from_str(s: &str) -> (r: Result<Day, InputError>)
        ensures
            r == spec_parse_day(s@),
    {
        let v = string_to_chars(s);
        if v.len() == 1 {
            let c = v[0];
            if is_dec_digit_exec(c) {
                let d = digit_val_exec(c);
                if d >= 1 {
                    return Ok(day_from_number(d));
                }
            }
            Err(InputError)
        } else if v.len() == 2 {
            let c0 = v[0];
            let c1 = v[1];
            if is_dec_digit_exec(c0) && is_dec_digit_exec(c1) {
                let n = digit_val_exec(c0) * 10 + digit_val_exec(c1);
                if 1 <= n && n <= 25 {
                    return Ok(day_from_number(n));
                }
            }
            Err(InputError)
        } else {
            Err(InputError)
        }
    }

    /// The zero-padded label the task directories carry for this day.
    pub fn as_str(&self) -> (r: &'static str)
        ensures
            r@ == day_label(*self),
    {
        match self {
            Day::Day01 => "01",
            Day::Day02 => "02",
            Day::Day03 => "03",
            Day::Day04 => "04",
            Day::Day05 => "05",
            Day::Day06 => "06",
            Day::Day07 => "07",
            Day::Day08 => "08",
            Day::Day09 => "09",
            Day::Day10 => "10",
            Day::Day11 => "11",
            Day::Day12 => "12",
            Day::Day13 => "13",
            Day::Day14 => "14",
            Day::Day15 => "15",
            Day::Day16 => "16",
            Day::Day17 => "17",
            Day::Day18 => "18",
            Day::Day19 => "19",
            Day::Day20 => "20",
            Day::Day21 => "21",
            Day::Day22 => "22",
            Day::Day23 => "23",
            Day::Day24 => "24",
            Day::Day25 => "25",
        }
    }
}

} // verus!
