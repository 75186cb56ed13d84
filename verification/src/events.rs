//! Key dispatch: the event loop's state machine. A key event, already freed
//! of its terminal encoding, is applied to the application state; what cannot
//! be done in memory (quitting, running the external tool, reading the
//! clipboard or the persisted input, writing it back) is returned as an
//! `Action` for the caller to perform.

use vstd::prelude::*;
use crate::app::App;
use crate::app::AppModel;
use crate::app::Direction;
use crate::app::spec_move_selection;
use crate::app::spec_watch;
use crate::app::spec_toggle_completion;
use crate::app::spec_cancel_edit;
use crate::app::spec_scroll_up;
use crate::app::spec_scroll_down;
use crate::app::spec_page_up;
use crate::app::spec_page_down;
use crate::editor::spec_insert_char;
use crate::editor::spec_delete_backward;
use crate::editor::spec_move_left;
use crate::editor::spec_move_right;
use crate::editor::spec_move_start;
use crate::editor::spec_move_end;
use crate::runner::RunError;
use crate::runner::error_message;
use crate::text::dec_str;
use crate::text::usize_to_string;

verus! {

/// How a key event was reported; only presses are acted on, so holding a key
/// on a platform that reports repeat and release events does not double up.
#[derive(Clone, Copy, Debug)]
pub enum KeyKind {
    Press,
    Repeat,
    Release,
}

/// The modifier state of a key event. Combinations the dashboard does not
/// bind are `Other` and fall through to the no-op arms.
#[derive(Clone, Copy, Debug)]
pub enum Modifier {
    Plain,
    Control,
    Other,
}

/// The keys the dashboard binds.
#[derive(Clone, Copy, Debug)]
pub enum Key {
    Char(char),
    Enter,
    Esc,
    Backspace,
    Left,
    Right,
    Up,
    Down,
    Home,
    End,
    PageUp,
    PageDown,
    Other,
}

/// One keyboard event, stripped to what the dispatch reads.
#[derive(Clone, Copy, Debug)]
pub struct KeyEvent {
    pub code: Key,
    pub modifier: Modifier,
    pub kind: KeyKind,
}

/// Mathematical value of an `Action`.
pub enum ActionModel {
    Idle,
    Quit,
    Check { day: int },
    Test { day: int },
    Run { day: int, part: int, input: Seq<char> },
    Paste,
    Save { day: int, part: int, content: Seq<char> },
    EnterEdit { day: int, part: int },
}

/// What the caller must perform after a dispatch: nothing, quitting, one of
/// the three external-tool verbs, a clipboard read, persisting a saved input,
/// or loading the persisted input on entering the editor.
pub enum Action {
    Idle,
    Quit,
    Check { day: u8 },
    Test { day: u8 },
    Run { day: u8, part: u8, input: String },
    Paste,
    Save { day: u8, part: u8, content: String },
    EnterEdit { day: u8, part: u8 },
}

impl View for Action {
    type V = ActionModel;

    open spec fn view(&self) -> ActionModel {
        match self {
            Action::Idle => ActionModel::Idle,
            Action::Quit => ActionModel::Quit,
            Action::Check { day } => ActionModel::Check { day: *day as int },
            Action::Test { day } => ActionModel::Test { day: *day as int },
            Action::Run { day, part, input } => ActionModel::Run {
                day: *day as int,
                part: *part as int,
                input: input@,
            },
            Action::Paste => ActionModel::Paste,
            Action::Save { day, part, content } => ActionModel::Save {
                day: *day as int,
                part: *part as int,
                content: content@,
            },
            Action::EnterEdit { day, part } => ActionModel::EnterEdit {
                day: *day as int,
                part: *part as int,
            },
        }
    }
}

/// Title line of the output pane while a check runs.
pub open spec fn check_header(day: int, part: int) -> Seq<char> {
    "Checking day "@ + dec_str(day) + " part "@ + dec_str(part) + "...\n"@
}

/// Title line of the output pane while tests run.
pub open spec fn test_header(day: int, part: int) -> Seq<char> {
    "Testing day "@ + dec_str(day) + " part "@ + dec_str(part) + "...\n"@
}

/// What the output pane shows when a run is asked for without a stored input.
pub open spec fn no_input_message() -> Seq<char> {
    "No input provided. Press 'i' to add input."@
}

/// What the output pane shows for a run that yielded a number.
pub open spec fn result_message(n: int) -> Seq<char> {
    "Result: "@ + dec_str(n)
}

/// What the output pane shows for a run that failed.
pub open spec fn run_error_message(e: RunError) -> Seq<char> {
    "Error: "@ + error_message(e)
}

/// Output pane set to the check header for the watched task.
pub open spec fn spec_start_check(m: AppModel) -> AppModel {
    AppModel { output: check_header(m.watched_day, m.watched_part), ..m }
}

/// Output pane set to the test header for the watched task.
pub open spec fn spec_start_test(m: AppModel) -> AppModel {
    AppModel { output: test_header(m.watched_day, m.watched_part), ..m }
}

/// Captured tool output appended to the pane.
pub open spec fn spec_append_output(m: AppModel, t: Seq<char>) -> AppModel {
    AppModel { output: m.output + t, ..m }
}

/// A run's outcome rendered into the pane.
pub open spec fn spec_apply_run_result(m: AppModel, r: Result<usize, RunError>) -> AppModel {
    match r {
        Result::Ok(n) => AppModel { output: result_message(n as int), ..m },
        Result::Err(e) => AppModel { output: run_error_message(e), ..m },
    }
}

/// The editing-mode transition: state after the key and the action owed.
pub open spec fn spec_editing_key(m: AppModel, key: KeyEvent) -> (AppModel, ActionModel) {
    match (key.code, key.modifier) {
        (Key::Char('s'), Modifier::Control) | (Key::Enter, Modifier::Control) => (
            m,
            ActionModel::Save { day: m.selected_day, part: m.selected_part, content: m.buffer },
        ),
        (Key::Char('v'), Modifier::Control) => (m, ActionModel::Paste),
        (Key::Enter, Modifier::Plain) => (spec_insert_char(m, '\n'), ActionModel::Idle),
        (Key::Left, Modifier::Plain) => (spec_move_left(m), ActionModel::Idle),
        (Key::Right, Modifier::Plain) => (spec_move_right(m), ActionModel::Idle),
        (Key::Home, _) | (Key::Char('a'), Modifier::Control) => (
            spec_move_start(m),
            ActionModel::Idle,
        ),
        (Key::End, _) | (Key::Char('e'), Modifier::Control) => (
            spec_move_end(m),
            ActionModel::Idle,
        ),
        (Key::PageUp, _) => (spec_page_up(m), ActionModel::Idle),
        (Key::PageDown, _) => (spec_page_down(m), ActionModel::Idle),
        (Key::Char('u'), Modifier::Control) => (spec_page_up(m), ActionModel::Idle),
        (Key::Char('d'), Modifier::Control) => (spec_page_down(m), ActionModel::Idle),
        (Key::Up, Modifier::Control) => (spec_scroll_up(m), ActionModel::Idle),
        (Key::Down, Modifier::Control) => (spec_scroll_down(m), ActionModel::Idle),
        (Key::Char(c), Modifier::Plain) => (spec_insert_char(m, c), ActionModel::Idle),
        (Key::Backspace, Modifier::Plain) => (spec_delete_backward(m), ActionModel::Idle),
        (Key::Esc, Modifier::Plain) => (spec_cancel_edit(m), ActionModel::Idle),
        _ => (m, ActionModel::Idle),
    }
}

/// The browsing-mode transition: state after the key and the action owed.
pub open spec fn spec_browsing_key(m: AppModel, key: KeyEvent) -> (AppModel, ActionModel) {
    match (key.code, key.modifier) {
        (Key::Char('q'), Modifier::Plain) => (m, ActionModel::Quit),
        (Key::Char('h'), Modifier::Plain) | (Key::Left, Modifier::Plain) => (
            spec_move_selection(m, Direction::Left),
            ActionModel::Idle,
        ),
        (Key::Char('l'), Modifier::Plain) | (Key::Right, Modifier::Plain) => (
            spec_move_selection(m, Direction::Right),
            ActionModel::Idle,
        ),
        (Key::Char('j'), Modifier::Plain) | (Key::Down, Modifier::Plain) => (
            spec_move_selection(m, Direction::Down),
            ActionModel::Idle,
        ),
        (Key::Char('k'), Modifier::Plain) | (Key::Up, Modifier::Plain) => (
            spec_move_selection(m, Direction::Up),
            ActionModel::Idle,
        ),
        (Key::PageUp, _) => (spec_page_up(m), ActionModel::Idle),
        (Key::PageDown, _) => (spec_page_down(m), ActionModel::Idle),
        (Key::Char('u'), Modifier::Control) => (spec_page_up(m), ActionModel::Idle),
        (Key::Char('d'), Modifier::Control) => (spec_page_down(m), ActionModel::Idle),
        (Key::Up, Modifier::Control) => (spec_scroll_up(m), ActionModel::Idle),
        (Key::Down, Modifier::Control) => (spec_scroll_down(m), ActionModel::Idle),
        (Key::Char('w'), Modifier::Plain) | (Key::Enter, Modifier::Plain) => (
            spec_start_check(spec_watch(m, m.selected_day, m.selected_part)),
            ActionModel::Check { day: m.selected_day },
        ),
        (Key::Char('t'), Modifier::Plain) => (
            spec_start_test(m),
            ActionModel::Test { day: m.watched_day },
        ),
        (Key::Char('c'), Modifier::Plain) => (spec_toggle_completion(m), ActionModel::Idle),
        (Key::Char('i'), Modifier::Plain) => (
            AppModel { input_mode: true, ..m },
            ActionModel::EnterEdit { day: m.selected_day, part: m.selected_part },
        ),
        (Key::Char('r'), Modifier::Plain) => (
            match m.grid[(m.selected_day, m.selected_part)].input {
                Option::Some(text) => (
                    m,
                    ActionModel::Run {
                        day: m.selected_day,
                        part: m.selected_part,
                        input: text,
                    },
                ),
                Option::None => (
                    AppModel { output: no_input_message(), ..m },
                    ActionModel::Idle,
                ),
            }
        ),
        _ => (m, ActionModel::Idle),
    }
}

/// The full dispatch: events other than presses do nothing; presses go to the
/// mode the state is in.
pub open spec fn spec_handle_key(m: AppModel, key: KeyEvent) -> (AppModel, ActionModel) {
    match key.kind {
        KeyKind::Press => if m.input_mode {
            spec_editing_key(m, key)
        } else {
            spec_browsing_key(m, key)
        },
        _ => (m, ActionModel::Idle),
    }
}

/// A run request on a task with no stored input reports the missing input in
/// the output pane and owes the caller nothing: the runner is never invoked.
pub proof fn lemma_run_without_input(m: AppModel, key: KeyEvent)
    requires
        (key.kind is Press),
        !m.input_mode,
        key.code == Key::Char('r'),
        (key.modifier is Plain),
        (m.grid[(m.selected_day, m.selected_part)].input is None),
    ensures
        spec_handle_key(m, key).0 == (AppModel { output: no_input_message(), ..m }),
        spec_handle_key(m, key).1 == ActionModel::Idle,
{
}

/// Every key event keeps the state well formed, whatever the mode, the key
/// and the start state.
pub proof fn lemma_handle_key_preserves_wf(m: AppModel, key: KeyEvent)
    requires
        m.wf(),
    ensures
        spec_handle_key(m, key).0.wf(),
{
}

impl App {
    /// Sets the output pane to the check header for the watched task; the
    /// caller runs the check and appends what it captured.
    pub fn start_check(&mut self)
        requires
            old(self).wf(),
        ensures
            final(self).wf(),
            final(self)@ == spec_start_check(old(self)@),
    {
        let mut s = String::new();
        s.append("Checking day ");
        let ds = usize_to_string(self.watched_day as usize);
        s.append(ds.as_str());
        s.append(" part ");
        let ps = usize_to_string(self.watched_part as usize);
        s.append(ps.as_str());
        s.append("...\n");
        self.cargo_output = s;
        proof {
            assert(self.cargo_output@ =~= check_header(
                self.watched_day as int,
                self.watched_part as int,
            ));
            assert(self@ =~= spec_start_check(old(self)@));
        }
    }

    /// Sets the output pane to the test header for the watched task; the
    /// caller runs the tests and appends what it captured.
    pub fn start_test(&mut self)
        requires
            old(self).wf(),
        ensures
            final(self).wf(),
            final(self)@ == spec_start_test(old(self)@),
    {
        let mut s = String::new();
        s.append("Testing day ");
        let ds = usize_to_string(self.watched_day as usize);
        s.append(ds.as_str());
        s.append(" part ");
        let ps = usize_to_string(self.watched_part as usize);
        s.append(ps.as_str());
        s.append("...\n");
        self.cargo_output = s;
        proof {
            assert(self.cargo_output@ =~= test_header(
                self.watched_day as int,
                self.watched_part as int,
            ));
            assert(self@ =~= spec_start_test(old(self)@));
        }
    }

    /// Appends captured tool output to the pane.
    pub fn append_output(&mut self, more: &str)
        requires
            old(self).wf(),
        ensures
            final(self).wf(),
            final(self)@ == spec_append_output(old(self)@, more@),
    {
        self.cargo_output.append(more);
        proof {
            assert(self@ =~= spec_append_output(old(self)@, more@));
        }
    }

    /// Renders a run's outcome into the output pane.
    pub fn apply_run_result(&mut self, result: Result<usize, RunError>)
        requires
            old(self).wf(),
        ensures
            final(self).wf(),
            final(self)@ == spec_apply_run_result(old(self)@, result),
    {
        let mut s = String::new();
        match &result {
            Ok(n) => {
                s.append("Result: ");
                let ns = usize_to_string(*n);
                s.append(ns.as_str());
            },
            Err(e) => {
                s.append("Error: ");
                let es = e.message();
                s.append(es.as_str());
            },
        }
        self.cargo_output = s;
        proof {
            assert(self@ =~= spec_apply_run_result(old(self)@, result));
        }
    }

    /// Applies one key event and returns the action the caller owes. Presses
    /// alone are acted on; the transition is exactly `spec_handle_key`.
    pub fn handle_key(&mut self, key: KeyEvent) -> (action: Action)
        requires
            old(self).wf(),
        ensures
            final(self).wf(),
            final(self)@ == spec_handle_key(old(self)@, key).0,
            action@ == spec_handle_key(old(self)@, key).1,
    {
        match key.kind {
            KeyKind::Press => {},
            _ => {
                return Action::Idle;
            },
        }
        if self.input_mode {
            self.handle_editing_key(key)
        } else {
            self.handle_browsing_key(key)
        }
    }

    /// Editing-mode arm of the dispatch.
    fn handle_editing_key(&mut self, key: KeyEvent) -> (action: Action)
        requires
            old(self).wf(),
            old(self).input_mode,
        ensures
            final(self).wf(),
            final(self)@ == spec_editing_key(old(self)@, key).0,
            action@ == spec_editing_key(old(self)@, key).1,
    {
        match (key.code, key.modifier) {
            (Key::Char('s'), Modifier::Control) | (Key::Enter, Modifier::Control) => {
                let content = crate::text::chars_to_string(&self.current_input);
                Action::Save { day: self.selected_day, part: self.selected_part, content }
            },
            (Key::Char('v'), Modifier::Control) => Action::Paste,
            (Key::Enter, Modifier::Plain) => {
                self.insert_newline();
                Action::Idle
            },
            (Key::Left, Modifier::Plain) => {
                self.move_cursor_left();
                Action::Idle
            },
            (Key::Right, Modifier::Plain) => {
                self.move_cursor_right();
                Action::Idle
            },
            (Key::Home, _) | (Key::Char('a'), Modifier::Control) => {
                self.move_cursor_start();
                Action::Idle
            },
            (Key::End, _) | (Key::Char('e'), Modifier::Control) => {
                self.move_cursor_end();
                Action::Idle
            },
            (Key::PageUp, _) => {
                self.page_up();
                Action::Idle
            },
            (Key::PageDown, _) => {
                self.page_down();
                Action::Idle
            },
            (Key::Char('u'), Modifier::Control) => {
                self.page_up();
                Action::Idle
            },
            (Key::Char('d'), Modifier::Control) => {
                self.page_down();
                Action::Idle
            },
            (Key::Up, Modifier::Control) => {
                self.scroll_up();
                Action::Idle
            },
            (Key::Down, Modifier::Control) => {
                self.scroll_down();
                Action::Idle
            },
            (Key::Char(c), Modifier::Plain) => {
                self.insert_char(c);
                Action::Idle
            },
            (Key::Backspace, Modifier::Plain) => {
                self.delete_char();
                Action::Idle
            },
            (Key::Esc, Modifier::Plain) => {
                self.cancel_edit();
                Action::Idle
            },
            _ => Action::Idle,
        }
    }

    /// Browsing-mode arm of the dispatch.
    fn handle_browsing_key(&mut self, key: KeyEvent) -> (action: Action)
        requires
            old(self).wf(),
            !old(self).input_mode,
        ensures
            final(self).wf(),
            final(self)@ == spec_browsing_key(old(self)@, key).0,
            action@ == spec_browsing_key(old(self)@, key).1,
    {
        match (key.code, key.modifier) {
            (Key::Char('q'), Modifier::Plain) => Action::Quit,
            (Key::Char('h'), Modifier::Plain) | (Key::Left, Modifier::Plain) => {
                self.move_cursor(Direction::Left);
                Action::Idle
            },
            (Key::Char('l'), Modifier::Plain) | (Key::Right, Modifier::Plain) => {
                self.move_cursor(Direction::Right);
                Action::Idle
            },
            (Key::Char('j'), Modifier::Plain) | (Key::Down, Modifier::Plain) => {
                self.move_cursor(Direction::Down);
                Action::Idle
            },
            (Key::Char('k'), Modifier::Plain) | (Key::Up, Modifier::Plain) => {
                self.move_cursor(Direction::Up);
                Action::Idle
            },
            (Key::PageUp, _) => {
                self.page_up();
                Action::Idle
            },
            (Key::PageDown, _) => {
                self.page_down();
                Action::Idle
            },
            (Key::Char('u'), Modifier::Control) => {
                self.page_up();
                Action::Idle
            },
            (Key::Char('d'), Modifier::Control) => {
                self.page_down();
                Action::Idle
            },
            (Key::Up, Modifier::Control) => {
                self.scroll_up();
                Action::Idle
            },
            (Key::Down, Modifier::Control) => {
                self.scroll_down();
                Action::Idle
            },
            (Key::Char('w'), Modifier::Plain) | (Key::Enter, Modifier::Plain) => {
                let day = self.selected_day;
                let part = self.selected_part;
                self.watch(day, part);
                self.start_check();
                Action::Check { day }
            },
            (Key::Char('t'), Modifier::Plain) => {
                let day = self.watched_day;
                self.start_test();
                Action::Test { day }
            },
            (Key::Char('c'), Modifier::Plain) => {
                self.toggle_completion();
                Action::Idle
            },
            (Key::Char('i'), Modifier::Plain) => {
                self.input_mode = true;
                proof {
                    assert(self@ =~= (AppModel { input_mode: true, ..old(self)@ }));
                }
                Action::EnterEdit { day: self.selected_day, part: self.selected_part }
            },
            (Key::Char('r'), Modifier::Plain) => {
                let day = self.selected_day;
                let part = self.selected_part;
                let stored: Option<String> = {
                    let c = self.days.get(day, part);
                    match &c.input {
                        Some(text) => Some(text.clone()),
                        None => None,
                    }
                };
                match stored {
                    Some(input) => Action::Run { day, part, input },
                    None => {
                        self.cargo_output = "No input provided. Press 'i' to add input.".to_owned();
                        proof {
                            assert(self@ =~= (AppModel {
                                output: no_input_message(),
                                ..old(self)@
                            }));
                        }
                        Action::Idle
                    },
                }
            },
            _ => Action::Idle,
        }
    }
}

} // verus!
