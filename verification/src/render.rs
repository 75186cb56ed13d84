//! The renderer's only state effect: clamping the viewport scroll so the line
//! of interest stays visible. Painting itself is a read-only projection of the
//! application state and happens outside the library; it hands the pane
//! height in and takes the clamped scroll back through these operations.

use vstd::prelude::*;
use crate::app::App;
use crate::app::AppModel;

verus! {

/// Number of newline characters in `s`.
pub open spec fn newline_count(s: Seq<char>) -> int
    decreases s.len(),
{
    if s.len() == 0 {
        0
    } else if s.last() == '\n' {
        newline_count(s.drop_last()) + 1
    } else {
        newline_count(s.drop_last())
    }
}

/// `n` squeezed into the scroll counter's range.
pub open spec fn sat_u16(n: int) -> int {
    if n <= u16::MAX {
        n
    } else {
        u16::MAX as int
    }
}

/// The scroll that keeps `line` inside a viewport of `height` rows: a line
/// above the view becomes the top, a line below the view becomes the bottom.
pub open spec fn spec_clamp_scroll(scroll: int, line: int, height: int) -> int {
    if line < scroll {
        line
    } else if line >= scroll + height {
        sat_u16(line - height + 1)
    } else {
        scroll
    }
}

/// Counts the newlines in `v[0..upto]`.
pub fn count_newlines(v: &Vec<char>, upto: usize) -> (n: usize)
    requires
        upto <= v@.len(),
    ensures
        n == newline_count(v@.subrange(0, upto as int)),
        n <= upto,
{
    let mut n: usize = 0;
    let mut i: usize = 0;
    while i < upto
        invariant
            i <= upto <= v@.len(),
            n <= i,
            n == newline_count(v@.subrange(0, i as int)),
        decreases upto - i,
    {
        proof {
            let p = v@.subrange(0, i + 1);
            assert(p.drop_last() =~= v@.subrange(0, i as int));
            assert(p.last() == v@[i as int]);
        }
        if v[i] == '\n' {
            n = n + 1;
        }
        i = i + 1;
    }
    n
}

/// `n` squeezed into the scroll counter's range, as `sat_u16` gives it.
pub fn saturate_u16(n: usize) -> (r: u16)
    ensures
        r as int == sat_u16(n as int),
{
    if n > u16::MAX as usize {
        u16::MAX
    } else {
        n as u16
    }
}

impl App {
    /// Index of the newest line of the output pane, for the renderer's clamp.
    pub fn output_newest_line(&self) -> (r: u16)
        ensures
            r as int == sat_u16(newline_count(self@.output)),
    {
        let v = crate::text::string_to_chars(self.cargo_output.as_str());
        let upto = v.len();
        let n = count_newlines(&v, upto);
        proof {
            assert(v@.subrange(0, v@.len() as int) =~= v@);
        }
        saturate_u16(n)
    }

    /// Index of the line the editing cursor is on, for the renderer's clamp.
    pub fn cursor_line(&self) -> (r: u16)
        requires
            self.wf(),
        ensures
            r as int == sat_u16(newline_count(self@.buffer.subrange(0, self@.cursor))),
    {
        let n = count_newlines(&self.current_input, self.cursor_position);
        saturate_u16(n)
    }

    /// Moves the scroll the renderer's way: if `line` lies outside the
    /// viewport of `height` rows, the view shifts just enough to show it.
    pub fn clamp_scroll_to_line(&mut self, line: u16, height: u16)
        requires
            old(self).wf(),
        ensures
            final(self).wf(),
            final(self)@ == (AppModel {
                scroll: spec_clamp_scroll(old(self)@.scroll, line as int, height as int),
                ..old(self)@
            }),
    {
        if line < self.scroll {
            self.scroll = line;
        } else if line as u32 >= self.scroll as u32 + height as u32 {
            if height > 0 {
                self.scroll = line - (height - 1);
            } else if line < u16::MAX {
                self.scroll = line + 1;
            } else {
                self.scroll = u16::MAX;
            }
        }
        proof {
            assert(self@ =~= (AppModel {
                scroll: spec_clamp_scroll(old(self)@.scroll, line as int, height as int),
                ..old(self)@
            }));
        }
    }
}

} // verus!
