//! The inline text editor: an editable character buffer with a cursor offset,
//! carried in the application state's `current_input` and `cursor_position`
//! fields. Every operation keeps the cursor inside the buffer; deleting at the
//! start of the buffer is a no-op, never an error.

use vstd::prelude::*;
use crate::app::App;
use crate::app::AppModel;

verus! {

/// One character inserted at the cursor, cursor advanced past it.
pub open spec fn spec_insert_char(m: AppModel, c: char) -> AppModel {
    AppModel { buffer: m.buffer.insert(m.cursor, c), cursor: m.cursor + 1, ..m }
}

/// A string spliced in at the cursor, cursor advanced past it.
pub open spec fn spec_insert_text(m: AppModel, t: Seq<char>) -> AppModel {
    AppModel {
        buffer: m.buffer.subrange(0, m.cursor) + t + m.buffer.subrange(
            m.cursor,
            m.buffer.len() as int,
        ),
        cursor: m.cursor + t.len(),
        ..m
    }
}

/// The character before the cursor removed; at the start of the buffer
/// nothing changes.
pub open spec fn spec_delete_backward(m: AppModel) -> AppModel {
    if m.cursor > 0 {
        AppModel { buffer: m.buffer.remove(m.cursor - 1), cursor: m.cursor - 1, ..m }
    } else {
        m
    }
}

/// Deleting backward on an empty buffer, or with the cursor at the start, is
/// a no-op: no error, no change.
pub proof fn lemma_delete_backward_noop(m: AppModel)
    requires
        m.cursor == 0 || (0 <= m.cursor <= m.buffer.len() && m.buffer.len() == 0),
    ensures
        spec_delete_backward(m) == m,
{
}

/// Each editing step keeps the cursor inside the buffer, so any sequence of
/// inserts, deletions and cursor moves does.
pub proof fn lemma_editing_keeps_cursor_in_buffer(m: AppModel, c: char, t: Seq<char>)
    requires
        0 <= m.cursor <= m.buffer.len(),
    ensures
        0 <= spec_insert_char(m, c).cursor <= spec_insert_char(m, c).buffer.len(),
        0 <= spec_insert_text(m, t).cursor <= spec_insert_text(m, t).buffer.len(),
        0 <= spec_delete_backward(m).cursor <= spec_delete_backward(m).buffer.len(),
        0 <= spec_move_left(m).cursor <= spec_move_left(m).buffer.len(),
        0 <= spec_move_right(m).cursor <= spec_move_right(m).buffer.len(),
        0 <= spec_move_start(m).cursor <= spec_move_start(m).buffer.len(),
        0 <= spec_move_end(m).cursor <= spec_move_end(m).buffer.len(),
{
}

/// Cursor one step left, clamped at the start.
pub open spec fn spec_move_left(m: AppModel) -> AppModel {
    AppModel { cursor: if m.cursor > 0 { m.cursor - 1 } else { 0 }, ..m }
}

/// Cursor one step right, clamped at the end.
pub open spec fn spec_move_right(m: AppModel) -> AppModel {
    AppModel {
        cursor: if m.cursor < m.buffer.len() { m.cursor + 1 } else { m.cursor },
        ..m
    }
}

/// Cursor at the start of the buffer.
pub open spec fn spec_move_start(m: AppModel) -> AppModel {
    AppModel { cursor: 0, ..m }
}

/// Cursor at the end of the buffer.
pub open spec fn spec_move_end(m: AppModel) -> AppModel {
    AppModel { cursor: m.buffer.len() as int, ..m }
}

impl App {
    /// Inserts one character at the cursor and advances the cursor past it.
    pub fn insert_char(&mut self, c: char)
        requires
            old(self).wf(),
        ensures
            final(self).wf(),
            final(self)@ == spec_insert_char(old(self)@, c),
    {
        self.current_input.insert(self.cursor_position, c);
        let n = self.current_input.len();
        proof {
            assert(self.cursor_position + 1 <= n);
        }
        self.cursor_position = self.cursor_position + 1;
        proof {
            assert(self@ =~= spec_insert_char(old(self)@, c));
        }
    }

    /// Inserts a line break at the cursor.
    pub fn insert_newline(&mut self)
        requires
            old(self).wf(),
        ensures
            final(self).wf(),
            final(self)@ == spec_insert_char(old(self)@, '\n'),
    {
        self.insert_char('\n');
    }

    /// Splices `text` in at the cursor and advances the cursor past it.
    pub fn insert_text(&mut self, text: &str)
        requires
            old(self).wf(),
        ensures
            final(self).wf(),
            final(self)@ == spec_insert_text(old(self)@, text@),
    {
        let tc = crate::text::string_to_chars(text);
        let mut out: Vec<char> = Vec::new();
        let mut i: usize = 0;
        while i < self.cursor_position
            invariant
                i <= old(self).cursor_position <= old(self).current_input@.len(),
                self == old(self),
                out@ == old(self).current_input@.subrange(0, i as int),
            decreases self.cursor_position - i,
        {
            out.push(self.current_input[i]);
            proof {
                assert(out@ =~= old(self).current_input@.subrange(0, i + 1));
            }
            i = i + 1;
        }
        let mut j: usize = 0;
        while j < tc.len()
            invariant
                j <= tc@.len(),
                self == old(self),
                tc@ == text@,
                old(self).cursor_position <= old(self).current_input@.len(),
                out@ == old(self).current_input@.subrange(0, old(self).cursor_position as int)
                    + tc@.subrange(0, j as int),
            decreases tc@.len() - j,
        {
            out.push(tc[j]);
            proof {
                assert(out@ =~= old(self).current_input@.subrange(
                    0,
                    old(self).cursor_position as int,
                ) + tc@.subrange(0, j + 1));
            }
            j = j + 1;
        }
        let mut k: usize = self.cursor_position;
        while k < self.current_input.len()
            invariant
                old(self).cursor_position <= k <= old(self).current_input@.len(),
                self == old(self),
                tc@ == text@,
                out@ == old(self).current_input@.subrange(0, old(self).cursor_position as int)
                    + tc@ + old(self).current_input@.subrange(
                    old(self).cursor_position as int,
                    k as int,
                ),
            decreases self.current_input@.len() - k,
        {
            out.push(self.current_input[k]);
            proof {
                assert(out@ =~= old(self).current_input@.subrange(
                    0,
                    old(self).cursor_position as int,
                ) + tc@ + old(self).current_input@.subrange(
                    old(self).cursor_position as int,
                    k + 1,
                ));
            }
            k = k + 1;
        }
        let total = out.len();
        proof {
            assert(self.cursor_position + tc@.len() <= total);
        }
        let new_cursor = self.cursor_position + tc.len();
        self.current_input = out;
        self.cursor_position = new_cursor;
        proof {
            assert(tc@.subrange(0, tc@.len() as int) =~= tc@);
            assert(self@ =~= spec_insert_text(old(self)@, text@));
        }
    }

    /// Removes the character before the cursor and steps the cursor back; at
    /// the start of the buffer this is a no-op.
    pub fn delete_char(&mut self)
        requires
            old(self).wf(),
        ensures
            final(self).wf(),
            final(self)@ == spec_delete_backward(old(self)@),
    {
        if self.cursor_position > 0 {
            self.cursor_position = self.cursor_position - 1;
            if self.cursor_position < self.current_input.len() {
                self.current_input.remove(self.cursor_position);
            }
        }
        proof {
            assert(self@ =~= spec_delete_backward(old(self)@));
        }
    }

    /// Moves the cursor one step left, clamped at the start.
    pub fn move_cursor_left(&mut self)
        requires
            old(self).wf(),
        ensures
            final(self).wf(),
            final(self)@ == spec_move_left(old(self)@),
    {
        if self.cursor_position > 0 {
            self.cursor_position = self.cursor_position - 1;
        }
        proof {
            assert(self@ =~= spec_move_left(old(self)@));
        }
    }

    /// Moves the cursor one step right, clamped at the end.
    pub fn move_cursor_right(&mut self)
        requires
            old(self).wf(),
        ensures
            final(self).wf(),
            final(self)@ == spec_move_right(old(self)@),
    {
        if self.cursor_position < self.current_input.len() {
            self.cursor_position = self.cursor_position + 1;
        }
        proof {
            assert(self@ =~= spec_move_right(old(self)@));
        }
    }

    /// Puts the cursor at the start of the buffer.
    pub fn move_cursor_start(&mut self)
        requires
            old(self).wf(),
        ensures
            final(self).wf(),
            final(self)@ == spec_move_start(old(self)@),
    {
        self.cursor_position = 0;
        proof {
            assert(self@ =~= spec_move_start(old(self)@));
        }
    }

    /// Puts the cursor at the end of the buffer.
    pub fn move_cursor_end(&mut self)
        requires
            old(self).wf(),
        ensures
            final(self).wf(),
            final(self)@ == spec_move_end(old(self)@),
    {
        self.cursor_position = self.current_input.len();
        proof {
            assert(self@ =~= spec_move_end(old(self)@));
        }
    }
}

} // verus!
