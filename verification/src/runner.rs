//! The pure side of the command-runner boundary. The runner invokes an
//! external build tool in three modes (check, test, run-with-captured-output);
//! spawning the tool is the caller's I/O. Here live the runner's
//! configuration, the package and input-file naming rules, and the parse of a
//! run's captured output into a number.

use vstd::prelude::*;
use crate::text::all_dec_digits;
use crate::text::dec_str;
use crate::text::dec_val;
use crate::text::digit_char;
use crate::text::digit_char_exec;
use crate::text::last_line;
use crate::text::line_start_idx;
use crate::text::parse_usize_chars;
use crate::text::push_char;
use crate::text::string_to_chars;
use crate::text::strip_plus;
use crate::text::trim_end_idx;
use crate::text::trim_end_ws;
use crate::text::trim_start_idx;
use crate::text::trim_start_ws;

verus! {

/// Why a run of the external tool yielded no number.
#[derive(Clone, Copy, Debug, PartialEq, Eq, Structural)]
pub enum RunError {
    /// The build or run subprocess could not be spawned.
    Execution,
    /// The captured output's final line is not an unsigned integer.
    ResultParse,
}

/// The message a run error is rendered with.
pub open spec fn error_message(e: RunError) -> Seq<char> {
    match e {
        RunError::Execution => "Failed to run solution"@,
        RunError::ResultParse => "Failed to parse result as usize"@,
    }
}

impl RunError {
    /// Renders the error for the output pane.
    pub fn message(&self) -> (s: String)
        ensures
            s@ == error_message(*self),
    {
        match self {
            RunError::Execution => "Failed to run solution".to_owned(),
            RunError::ResultParse => "Failed to parse result as usize".to_owned(),
        }
    }
}

/// Two-digit zero-padded day, as the task directories are named.
pub open spec fn two_digit(day: int) -> Seq<char> {
    seq![digit_char(day / 10), digit_char(day % 10)]
}

/// Package name of one day's workspace member.
pub open spec fn day_package(day: int) -> Seq<char> {
    "day"@ + two_digit(day)
}

/// Path of the persisted input file of one task.
pub open spec fn input_file_path_spec(day: int, part: int) -> Seq<char> {
    "inputs/day"@ + two_digit(day) + "_part"@ + seq![digit_char(part)] + ".txt"@
}

/// The line of a run's captured output that carries the result: the final
/// line, once surrounding whitespace is dropped.
pub open spec fn run_result_line(s: Seq<char>) -> Seq<char> {
    trim_start_ws(last_line(trim_end_ws(s)))
}

/// Builds the package name of one day, `two_digit`-padded.
pub fn day_package_name(day: u8) -> (s: String)
    requires
        day < 100,
    ensures
        s@ == day_package(day as int),
{
    let mut s = String::new();
    s.append("day");
    push_char(&mut s, digit_char_exec(day / 10));
    push_char(&mut s, digit_char_exec(day % 10));
    proof {
        assert(s@ =~= day_package(day as int));
    }
    s
}

/// Builds the persisted-input path of one task.
pub fn input_file_path(day: u8, part: u8) -> (s: String)
    requires
        day < 100,
        part < 10,
    ensures
        s@ == input_file_path_spec(day as int, part as int),
{
    let mut s = String::new();
    s.append("inputs/day");
    push_char(&mut s, digit_char_exec(day / 10));
    push_char(&mut s, digit_char_exec(day % 10));
    s.append("_part");
    push_char(&mut s, digit_char_exec(part));
    s.append(".txt");
    proof {
        assert(s@ =~= input_file_path_spec(day as int, part as int));
    }
    s
}

/// Parses a run's captured standard output: its final line, surrounding
/// whitespace aside and one leading plus sign allowed, must be an unsigned
/// decimal integer that fits the machine word.
pub fn parse_run_output(out: &str) -> (r: Result<usize, RunError>)
    ensures
        ({
            let digits = strip_plus(run_result_line(out@));
            &&& (r is Ok <==> digits.len() > 0 && all_dec_digits(digits) && dec_val(digits)
                <= usize::MAX)
            &&& (r is Ok ==> r->Ok_0 == dec_val(digits))
            &&& (r is Err ==> r->Err_0 == RunError::ResultParse)
        }),
{
    let v = string_to_chars(out);
    let whole = v.len();
    proof {
        assert(v@.subrange(0, whole as int) =~= v@);
    }
    let e = trim_end_idx(&v, whole);
    let ls = line_start_idx(&v, e);
    let s2 = trim_start_idx(&v, ls, e);
    match parse_usize_chars(&v, s2, e) {
        Some(n) => Ok(n),
        None => Err(RunError::ResultParse),
    }
}

/// A sequence without newlines is its own last line.
proof fn lemma_last_line_without_newline(s: Seq<char>)
    requires
        forall|i: int| 0 <= i < s.len() ==> s[i] != '\n',
    ensures
        last_line(s) == s,
    decreases s.len(),
{
    if s.len() > 0 {
        assert(s.last() == s[s.len() - 1]);
        assert(forall|i: int| 0 <= i < s.drop_last().len() ==> s.drop_last()[i] != '\n');
        lemma_last_line_without_newline(s.drop_last());
        assert(s.drop_last().push(s.last()) =~= s);
    }
}

/// Round trip through the runner boundary: the decimal rendering of `n`
/// passes the result-line isolation unchanged and evaluates back to `n`, so
/// a run whose captured output is exactly that rendering parses to `n`.
pub proof fn lemma_render_parse_round_trip(n: usize)
    ensures
        run_result_line(dec_str(n as int)) == dec_str(n as int),
        strip_plus(dec_str(n as int)) == dec_str(n as int),
        all_dec_digits(dec_str(n as int)),
        dec_str(n as int).len() > 0,
        dec_val(dec_str(n as int)) == n as int,
{
    crate::text::lemma_dec_str_val(n as int);
    let s = dec_str(n as int);
    assert(forall|i: int| 0 <= i < s.len() ==> !crate::text::is_ws(#[trigger] s[i]) && s[i]
        != '\n' && s[i] != '+') by {
        assert(forall|i: int| 0 <= i < s.len() ==> crate::text::is_dec_digit(#[trigger] s[i]));
    }
    assert(s.last() == s[s.len() - 1]);
    assert(trim_end_ws(s) == s);
    lemma_last_line_without_newline(s);
    assert(trim_start_ws(s) == s);
}

/// Configuration of the command-runner boundary: the directory the scratch
/// runner project is materialised in. The caller spawns the external tool
/// there and hands the captured output back to the library.
pub struct Runner {
    runner_dir: String,
}

impl Runner {
    /// The scratch directory's path.
    pub closed spec fn dir(&self) -> Seq<char> {
        self.runner_dir@
    }

    /// A runner over the given scratch directory.
    pub fn new(path: &str) -> (r: Runner)
        ensures
            r.dir() == path@,
    {
        Runner { runner_dir: path.to_owned() }
    }

    /// The scratch directory, for the caller's filesystem work.
    pub fn dir_str(&self) -> (s: &str)
        ensures
            s@ == self.dir(),
    {
        self.runner_dir.as_str()
    }
}

impl Default for Runner {
    /// The conventional scratch directory.
    fn default() -> (r: Runner)
        ensures
            r.dir() == "runner"@,
    {
        Runner::new("runner")
    }
}

} // verus!
