//! The dashboard's application state: challenge grid, selection and watched
//! task, browsing/editing mode flag, the inline text buffer, viewport scroll
//! and the output pane. All mutation goes through these operations; the event
//! loop outside the library drives them and performs the I/O they decide on.

use vstd::prelude::*;
use crate::grid::ChallengeGrid;
use crate::grid::Challenge;
use crate::grid::ChallengeView;
use crate::grid::valid_task;
use crate::grid::initial_grid;
use crate::grid::spec_toggle_completed;
use crate::grid::spec_set_input;
use crate::grid::spec_load_input;

verus! {

/// Direction of a selection move while browsing.
pub enum Direction {
    Up,
    Down,
    Left,
    Right,
}

/// Mathematical value of the whole application state.
#[verifier::ext_equal]
pub struct AppModel {
    pub selected_day: int,
    pub selected_part: int,
    pub watched_day: int,
    pub watched_part: int,
    pub scroll: int,
    pub input_mode: bool,
    pub cursor_blink: bool,
    pub show_scroll_hint: bool,
    pub cursor: int,
    pub buffer: Seq<char>,
    pub output: Seq<char>,
    pub grid: Map<(int, int), ChallengeView>,
}

impl AppModel {
    /// Invariants every reachable state keeps: selection and watched task are
    /// valid identities, the cursor stays inside the buffer, the scroll fits
    /// its counter.
    pub open spec fn wf(self) -> bool {
        &&& valid_task(self.selected_day, self.selected_part)
        &&& valid_task(self.watched_day, self.watched_part)
        &&& 0 <= self.scroll <= u16::MAX
        &&& 0 <= self.cursor <= self.buffer.len()
        &&& forall|id: (int, int)| #[trigger]
            self.grid.dom().contains(id) <==> valid_task(id.0, id.1)
    }
}

/// The application state at session start.
pub open spec fn initial_app() -> AppModel {
    AppModel {
        selected_day: 1,
        selected_part: 1,
        watched_day: 1,
        watched_part: 1,
        scroll: 0,
        input_mode: false,
        cursor_blink: false,
        show_scroll_hint: false,
        cursor: 0,
        buffer: Seq::<char>::empty(),
        output: Seq::<char>::empty(),
        grid: initial_grid(),
    }
}

/// Selection moved one step, clamped to the grid; at a boundary nothing moves.
pub open spec fn spec_move_selection(m: AppModel, dir: Direction) -> AppModel {
    match dir {
        Direction::Up => if m.selected_day > 1 {
            AppModel { selected_day: m.selected_day - 1, ..m }
        } else {
            m
        },
        Direction::Down => if m.selected_day < 25 {
            AppModel { selected_day: m.selected_day + 1, ..m }
        } else {
            m
        },
        Direction::Left => if m.selected_part > 1 {
            AppModel { selected_part: m.selected_part - 1, ..m }
        } else {
            m
        },
        Direction::Right => if m.selected_part < 2 {
            AppModel { selected_part: m.selected_part + 1, ..m }
        } else {
            m
        },
    }
}

/// Moving the selection keeps it on the grid, whatever the direction and the
/// start position; a move against a boundary changes nothing.
pub proof fn lemma_move_selection_clamps(m: AppModel, dir: Direction)
    requires
        m.wf(),
    ensures
        spec_move_selection(m, dir).wf(),
        1 <= spec_move_selection(m, dir).selected_day <= 25,
        1 <= spec_move_selection(m, dir).selected_part <= 2,
        m.selected_day == 1 && (dir is Up) ==> spec_move_selection(m, dir) == m,
        m.selected_day == 25 && (dir is Down) ==> spec_move_selection(m, dir) == m,
        m.selected_part == 1 && (dir is Left) ==> spec_move_selection(m, dir) == m,
        m.selected_part == 2 && (dir is Right) ==> spec_move_selection(m, dir) == m,
{
}

/// The watched task replaced.
pub open spec fn spec_watch(m: AppModel, day: int, part: int) -> AppModel {
    AppModel { watched_day: day, watched_part: part, ..m }
}

/// The selected task's completion flag flipped.
pub open spec fn spec_toggle_completion(m: AppModel) -> AppModel {
    AppModel { grid: spec_toggle_completed(m.grid, m.selected_day, m.selected_part), ..m }
}

/// Toggling the selected task's completion twice restores the state.
pub proof fn lemma_toggle_completion_involutive(m: AppModel)
    requires
        m.wf(),
    ensures
        spec_toggle_completion(spec_toggle_completion(m)) == m,
{
    crate::grid::lemma_toggle_completed_involutive(m.grid, m.selected_day, m.selected_part);
    assert(spec_toggle_completion(spec_toggle_completion(m)) =~= m);
}

/// The selected task's stored input replaced by `text`.
pub open spec fn spec_app_set_input(m: AppModel, text: Seq<char>) -> AppModel {
    AppModel { grid: spec_set_input(m.grid, m.selected_day, m.selected_part, text), ..m }
}

/// Persisted input taken over: a present value fills the buffer and the
/// selected entry, absence changes nothing.
pub open spec fn spec_app_load_input(m: AppModel, stored: Option<Seq<char>>) -> AppModel {
    match stored {
        Option::None => m,
        Option::Some(text) => AppModel {
            buffer: text,
            grid: spec_set_input(m.grid, m.selected_day, m.selected_part, text),
            ..m
        },
    }
}

/// Round trip: saving an input and then loading what the store now holds for
/// that task (the saved text, or nothing if the store was not written) leaves
/// the selected entry at the saved text.
pub proof fn lemma_set_then_load_roundtrip(
    m: AppModel,
    text: Seq<char>,
    stored: Option<Seq<char>>,
)
    requires
        m.wf(),
        stored is None || stored == Some(text),
    ensures
        spec_app_load_input(spec_app_set_input(m, text), stored).grid[
            (m.selected_day, m.selected_part)
        ].input == Some(text),
        stored is Some ==> spec_app_load_input(spec_app_set_input(m, text), stored).buffer == text,
{
}

/// Editing entered: persisted input loaded and the cursor put at end-of-text.
pub open spec fn spec_begin_edit(m: AppModel, stored: Option<Seq<char>>) -> AppModel {
    let loaded = spec_app_load_input(m, stored);
    AppModel { input_mode: true, cursor: loaded.buffer.len() as int, ..loaded }
}

/// Editing left with the buffer committed to the selected task.
pub open spec fn spec_save_input(m: AppModel) -> AppModel {
    AppModel {
        grid: spec_set_input(m.grid, m.selected_day, m.selected_part, m.buffer),
        input_mode: false,
        buffer: Seq::<char>::empty(),
        cursor: 0,
        ..m
    }
}

/// Editing left with the buffer discarded.
pub open spec fn spec_cancel_edit(m: AppModel) -> AppModel {
    AppModel { input_mode: false, buffer: Seq::<char>::empty(), cursor: 0, ..m }
}

/// The cursor-blink flag flipped.
pub open spec fn spec_toggle_blink(m: AppModel) -> AppModel {
    AppModel { cursor_blink: !m.cursor_blink, ..m }
}

/// One line up, clamped at the top.
pub open spec fn spec_scroll_up(m: AppModel) -> AppModel {
    AppModel { scroll: if m.scroll > 0 { m.scroll - 1 } else { 0 }, ..m }
}

/// One line down, saturating at the counter's limit.
pub open spec fn spec_scroll_down(m: AppModel) -> AppModel {
    AppModel { scroll: if m.scroll < u16::MAX { m.scroll + 1 } else { m.scroll }, ..m }
}

/// Ten lines up, clamped at the top.
pub open spec fn spec_page_up(m: AppModel) -> AppModel {
    AppModel { scroll: if m.scroll >= 10 { m.scroll - 10 } else { 0 }, ..m }
}

/// Ten lines down, saturating at the counter's limit.
pub open spec fn spec_page_down(m: AppModel) -> AppModel {
    AppModel {
        scroll: if m.scroll + 10 <= u16::MAX { m.scroll + 10 } else { u16::MAX as int },
        ..m
    }
}

/// The dashboard state. Fields mirror what the renderer projects; the event
/// dispatch and the operations below are the only intended mutators.
pub struct App {
    pub selected_day: u8,
    pub selected_part: u8,
    pub watched_day: u8,
    pub watched_part: u8,
    pub scroll: u16,
    pub input_mode: bool,
    pub cursor_blink_state: bool,
    pub show_scroll_hint: bool,
    pub cursor_position: usize,
    pub current_input: Vec<char>,
    pub cargo_output: String,
    pub days: ChallengeGrid,
}

impl View for App {
    type V = AppModel;

    open spec fn view(&self) -> AppModel {
        AppModel {
            selected_day: self.selected_day as int,
            selected_part: self.selected_part as int,
            watched_day: self.watched_day as int,
            watched_part: self.watched_part as int,
            scroll: self.scroll as int,
            input_mode: self.input_mode,
            cursor_blink: self.cursor_blink_state,
            show_scroll_hint: self.show_scroll_hint,
            cursor: self.cursor_position as int,
            buffer: self.current_input@,
            output: self.cargo_output@,
            grid: self.days@,
        }
    }
}

impl App {
    /// Model invariants plus one slot per task in the backing grid.
    pub open spec fn wf(self) -> bool {
        self@.wf() && self.days.wf()
    }

    /// A fresh session: selection and watched task at day 1 part 1, browsing
    /// mode, empty buffer and output, every challenge fresh.
    pub fn new() -> (app: App)
        ensures
            app.wf(),
            app@ == initial_app(),
    {
        let app = App {
            selected_day: 1,
            selected_part: 1,
            watched_day: 1,
            watched_part: 1,
            scroll: 0,
            input_mode: false,
            cursor_blink_state: false,
            show_scroll_hint: false,
            cursor_position: 0,
            current_input: Vec::new(),
            cargo_output: String::new(),
            days: ChallengeGrid::new(),
        };
        proof {
            assert(app@ =~= initial_app());
        }
        app
    }

    /// Marks one task as the watched one.
    pub fn watch(&mut self, day: u8, part: u8)
        requires
            old(self).wf(),
            valid_task(day as int, part as int),
        ensures
            final(self).wf(),
            final(self)@ == spec_watch(old(self)@, day as int, part as int),
    {
        self.watched_day = day;
        self.watched_part = part;
        proof {
            assert(self@ =~= spec_watch(old(self)@, day as int, part as int));
        }
    }

    /// Moves the selection one step, clamped to day 1..=25 and part 1..=2;
    /// at a boundary the selection stays put.
    pub fn move_cursor(&mut self, direction: Direction)
        requires
            old(self).wf(),
        ensures
            final(self).wf(),
            final(self)@ == spec_move_selection(old(self)@, direction),
    {
        match direction {
            Direction::Up => {
                if self.selected_day > 1 {
                    self.selected_day = self.selected_day - 1;
                }
            },
            Direction::Down => {
                if self.selected_day < 25 {
                    self.selected_day = self.selected_day + 1;
                }
            },
            Direction::Left => {
                if self.selected_part > 1 {
                    self.selected_part = self.selected_part - 1;
                }
            },
            Direction::Right => {
                if self.selected_part < 2 {
                    self.selected_part = self.selected_part + 1;
                }
            },
        }
        proof {
            assert(self@ =~= spec_move_selection(old(self)@, direction));
        }
    }

    /// Flips the completion flag of the selected task.
    pub fn toggle_completion(&mut self)
        requires
            old(self).wf(),
        ensures
            final(self).wf(),
            final(self)@ == spec_toggle_completion(old(self)@),
    {
        self.days.toggle_completed(self.selected_day, self.selected_part);
        proof {
            assert(self@ =~= spec_toggle_completion(old(self)@));
        }
    }

    /// The selected task's entry; total while the state is well formed.
    pub fn get_selected_challenge(&self) -> (c: Option<&Challenge>)
        requires
            self.wf(),
        ensures
            c is Some,
            c->0@ == self@.grid[(self@.selected_day, self@.selected_part)],
    {
        Some(self.days.get(self.selected_day, self.selected_part))
    }

    /// Replaces the selected task's stored input in memory. Writing the
    /// persisted copy is the caller's step; this updates what the grid holds.
    pub fn set_input(&mut self, input: String)
        requires
            old(self).wf(),
        ensures
            final(self).wf(),
            final(self)@ == spec_app_set_input(old(self)@, input@),
    {
        self.days.set_input(self.selected_day, self.selected_part, input);
        proof {
            assert(self@ =~= spec_app_set_input(old(self)@, input@));
        }
    }

    /// Takes over what persisted storage held for the selected task: a present
    /// value fills the buffer and the entry, absence changes nothing. The
    /// cursor is not moved, so well-formedness is kept whenever the cursor
    /// already fits the loaded text; `begin_edit` repositions it.
    pub fn load_input(&mut self, stored: Option<String>)
        requires
            old(self).wf(),
        ensures
            final(self)@ == spec_app_load_input(
                old(self)@,
                match stored {
                    Option::None => Option::None,
                    Option::Some(s) => Option::Some(s@),
                },
            ),
            final(self).days.wf(),
            final(self)@.cursor == old(self)@.cursor,
            old(self)@.cursor <= final(self)@.buffer.len() ==> final(self).wf(),
    {
        match stored {
            None => {},
            Some(s) => {
                let chars = crate::text::string_to_chars(s.as_str());
                self.current_input = chars;
                self.days.set_input(self.selected_day, self.selected_part, s);
                proof {
                    assert(self@ =~= spec_app_load_input(old(self)@, Option::Some(s@)));
                }
            },
        }
    }

    /// Enters editing mode: loads the persisted input, if any, and puts the
    /// cursor at end-of-text.
    pub fn begin_edit(&mut self, stored: Option<String>)
        requires
            old(self).wf(),
        ensures
            final(self).wf(),
            final(self)@ == spec_begin_edit(
                old(self)@,
                match stored {
                    Option::None => Option::None,
                    Option::Some(s) => Option::Some(s@),
                },
            ),
    {
        self.input_mode = true;
        self.load_input(stored);
        self.cursor_position = self.current_input.len();
        proof {
            assert(self@ =~= spec_begin_edit(
                old(self)@,
                match stored {
                    Option::None => Option::None,
                    Option::Some(s) => Option::Some(s@),
                },
            ));
        }
    }

    /// Leaves editing mode committing the buffer to the selected task's
    /// in-memory entry; the buffer is cleared. Writing the persisted copy is
    /// the caller's step.
    pub fn save_input(&mut self)
        requires
            old(self).wf(),
        ensures
            final(self).wf(),
            final(self)@ == spec_save_input(old(self)@),
    {
        let text = crate::text::chars_to_string(&self.current_input);
        self.days.set_input(self.selected_day, self.selected_part, text);
        self.input_mode = false;
        self.current_input = Vec::new();
        self.cursor_position = 0;
        proof {
            assert(self@ =~= spec_save_input(old(self)@));
        }
    }

    /// Leaves editing mode discarding the buffer; nothing is persisted.
    pub fn cancel_edit(&mut self)
        requires
            old(self).wf(),
        ensures
            final(self).wf(),
            final(self)@ == spec_cancel_edit(old(self)@),
    {
        self.input_mode = false;
        self.current_input = Vec::new();
        self.cursor_position = 0;
        proof {
            assert(self@ =~= spec_cancel_edit(old(self)@));
        }
    }

    /// Flips the cursor-blink flag; the event loop calls this on its timer.
    pub fn toggle_cursor_blink(&mut self)
        requires
            old(self).wf(),
        ensures
            final(self).wf(),
            final(self)@ == spec_toggle_blink(old(self)@),
    {
        self.cursor_blink_state = !self.cursor_blink_state;
        proof {
            assert(self@ =~= spec_toggle_blink(old(self)@));
        }
    }

    /// Scrolls one line up; a view already at the top stays there.
    pub fn scroll_up(&mut self)
        requires
            old(self).wf(),
        ensures
            final(self).wf(),
            final(self)@ == spec_scroll_up(old(self)@),
    {
        if self.scroll > 0 {
            self.scroll = self.scroll - 1;
        }
        proof {
            assert(self@ =~= spec_scroll_up(old(self)@));
        }
    }

    /// Scrolls one line down; the renderer clamps against the content, the
    /// counter itself saturates.
    pub fn scroll_down(&mut self)
        requires
            old(self).wf(),
        ensures
            final(self).wf(),
            final(self)@ == spec_scroll_down(old(self)@),
    {
        if self.scroll < u16::MAX {
            self.scroll = self.scroll + 1;
        }
        proof {
            assert(self@ =~= spec_scroll_down(old(self)@));
        }
    }

    /// Scrolls ten lines up, clamped at the top.
    pub fn page_up(&mut self)
        requires
            old(self).wf(),
        ensures
            final(self).wf(),
            final(self)@ == spec_page_up(old(self)@),
    {
        if self.scroll >= 10 {
            self.scroll = self.scroll - 10;
        } else {
            self.scroll = 0;
        }
        proof {
            assert(self@ =~= spec_page_up(old(self)@));
        }
    }

    /// Scrolls ten lines down, saturating at the counter's limit.
    pub fn page_down(&mut self)
        requires
            old(self).wf(),
        ensures
            final(self).wf(),
            final(self)@ == spec_page_down(old(self)@),
    {
        if self.scroll <= u16::MAX - 10 {
            self.scroll = self.scroll + 10;
        } else {
            self.scroll = u16::MAX;
        }
        proof {
            assert(self@ =~= spec_page_down(old(self)@));
        }
    }
}

} // verus!
