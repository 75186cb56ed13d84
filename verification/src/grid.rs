//! The fixed 25x2 challenge grid: one completion flag and one optional stored
//! input text per task identity. Every valid identity has an entry at all
//! times; persistence of the input text is the caller's concern, the grid
//! keeps the in-memory copy.

use vstd::prelude::*;

verus! {

/// Completion flag and optional input payload of one task.
pub struct Challenge {
    pub completed: bool,
    pub input: Option<String>,
}

/// Mathematical value of a `Challenge`.
pub struct ChallengeView {
    pub completed: bool,
    pub input: Option<Seq<char>>,
}

impl View for Challenge {
    type V = ChallengeView;

    open spec fn view(&self) -> ChallengeView {
        ChallengeView {
            completed: self.completed,
            input: match self.input {
                Option::None => Option::None,
                Option::Some(s) => Option::Some(s@),
            },
        }
    }
}

impl Default for Challenge {
    /// A fresh task: not completed, no input stored.
    fn default() -> (c: Challenge)
        ensures
            !c@.completed,
            c@.input is None,
    {
        Challenge { completed: false, input: None }
    }
}

/// The task identities: day in 1..=25, part in 1..=2.
pub open spec fn valid_task(day: int, part: int) -> bool {
    1 <= day <= 25 && 1 <= part <= 2
}

/// Position of a task in the backing vector.
pub open spec fn slot_index(day: int, part: int) -> int {
    (day - 1) * 2 + (part - 1)
}

/// Valid identities stay inside the 50 slots.
pub proof fn lemma_slot_index_bounds(day: int, part: int)
    requires
        valid_task(day, part),
    ensures
        0 <= slot_index(day, part) < 50,
{
}

/// Distinct valid identities use distinct slots.
pub proof fn lemma_slot_index_injective(d1: int, p1: int, d2: int, p2: int)
    requires
        valid_task(d1, p1),
        valid_task(d2, p2),
        slot_index(d1, p1) == slot_index(d2, p2),
    ensures
        d1 == d2 && p1 == p2,
{
}

/// The map a slot vector stands for.
pub open spec fn grid_view_of(slots: Seq<Challenge>) -> Map<(int, int), ChallengeView> {
    Map::new(
        |id: (int, int)| valid_task(id.0, id.1),
        |id: (int, int)| slots[slot_index(id.0, id.1)]@,
    )
}

/// The grid at session start: every task fresh.
pub open spec fn initial_grid() -> Map<(int, int), ChallengeView> {
    Map::new(
        |id: (int, int)| valid_task(id.0, id.1),
        |id: (int, int)| ChallengeView { completed: false, input: None },
    )
}

/// `g` with the completion flag of one task flipped.
pub open spec fn spec_toggle_completed(
    g: Map<(int, int), ChallengeView>,
    day: int,
    part: int,
) -> Map<(int, int), ChallengeView> {
    g.insert(
        (day, part),
        ChallengeView { completed: !g[(day, part)].completed, input: g[(day, part)].input },
    )
}

/// `g` with the stored input of one task replaced.
pub open spec fn spec_set_input(
    g: Map<(int, int), ChallengeView>,
    day: int,
    part: int,
    text: Seq<char>,
) -> Map<(int, int), ChallengeView> {
    g.insert(
        (day, part),
        ChallengeView { completed: g[(day, part)].completed, input: Some(text) },
    )
}

/// `g` after reading persisted storage: an absent value changes nothing.
pub open spec fn spec_load_input(
    g: Map<(int, int), ChallengeView>,
    day: int,
    part: int,
    stored: Option<Seq<char>>,
) -> Map<(int, int), ChallengeView> {
    match stored {
        Option::None => g,
        Option::Some(text) => spec_set_input(g, day, part, text),
    }
}

/// Flipping the same flag twice restores the grid.
pub proof fn lemma_toggle_completed_involutive(
    g: Map<(int, int), ChallengeView>,
    day: int,
    part: int,
)
    requires
        g.dom().contains((day, part)),
    ensures
        spec_toggle_completed(spec_toggle_completed(g, day, part), day, part) == g,
{
    let id = (day, part);
    let g1 = spec_toggle_completed(g, day, part);
    let g2 = spec_toggle_completed(g1, day, part);
    assert(g2[id] == g[id]);
    assert(g2 =~= g);
}

/// Replacing a task's input and then loading the persisted copy of the same
/// text leaves the entry at that text; so does loading nothing.
pub proof fn lemma_set_then_load_roundtrip(
    g: Map<(int, int), ChallengeView>,
    day: int,
    part: int,
    text: Seq<char>,
    stored: Option<Seq<char>>,
)
    requires
        stored is None || stored == Some(text),
    ensures
        spec_load_input(spec_set_input(g, day, part, text), day, part, stored)[(day, part)].input
            == Some(text),
{
}

/// The 25x2 challenge collection, fully populated at construction.
pub struct ChallengeGrid {
    slots: Vec<Challenge>,
}

impl View for ChallengeGrid {
    type V = Map<(int, int), ChallengeView>;

    closed spec fn view(&self) -> Map<(int, int), ChallengeView> {
        grid_view_of(self.slots@)
    }
}

impl ChallengeGrid {
    /// Exactly one slot per task identity.
    pub closed spec fn wf(&self) -> bool {
        self.slots@.len() == 50
    }

    /// A grid with every one of the 50 tasks fresh.
    pub fn new() -> (g: ChallengeGrid)
        ensures
            g.wf(),
            g@ == initial_grid(),
    {
        let mut slots: Vec<Challenge> = Vec::new();
        let mut i: usize = 0;
        while i < 50
            invariant
                i <= 50,
                slots@.len() == i,
                forall|j: int|
                    0 <= j < i ==> !(#[trigger] slots@[j])@.completed && slots@[j]@.input is None,
            decreases 50 - i,
        {
            slots.push(Challenge { completed: false, input: None });
            i = i + 1;
        }
        let g = ChallengeGrid { slots };
        proof {
            assert forall|id: (int, int)| #[trigger]
                valid_task(id.0, id.1) implies grid_view_of(g.slots@)[id] == initial_grid()[id] by {
                lemma_slot_index_bounds(id.0, id.1);
            }
            assert(g@ =~= initial_grid());
        }
        g
    }

    /// Looks a task up; total for valid identities.
    pub fn get(&self, day: u8, part: u8) -> (c: &Challenge)
        requires
            self.wf(),
            valid_task(day as int, part as int),
        ensures
            c@ == self@[(day as int, part as int)],
    {
        proof {
            lemma_slot_index_bounds(day as int, part as int);
        }
        let i = slot_index_exec(day, part);
        &self.slots[i]
    }

    /// Flips the completion flag of one task; every other entry is unchanged.
    pub fn toggle_completed(&mut self, day: u8, part: u8)
        requires
            old(self).wf(),
            valid_task(day as int, part as int),
        ensures
            final(self).wf(),
            final(self)@ == spec_toggle_completed(old(self)@, day as int, part as int),
    {
        proof {
            lemma_slot_index_bounds(day as int, part as int);
        }
        let i = slot_index_exec(day, part);
        let c = &mut self.slots[i];
        let was = c.completed;
        c.completed = !was;
        proof {
            lemma_grid_update(
                old(self).slots@,
                self.slots@,
                day as int,
                part as int,
                self.slots@[slot_index(day as int, part as int)],
            );
        }
    }

    /// Replaces the stored input of one task with `input`.
    pub fn set_input(&mut self, day: u8, part: u8, input: String)
        requires
            old(self).wf(),
            valid_task(day as int, part as int),
        ensures
            final(self).wf(),
            final(self)@ == spec_set_input(old(self)@, day as int, part as int, input@),
    {
        proof {
            lemma_slot_index_bounds(day as int, part as int);
        }
        let i = slot_index_exec(day, part);
        let c = &mut self.slots[i];
        c.input = Some(input);
        proof {
            lemma_grid_update(
                old(self).slots@,
                self.slots@,
                day as int,
                part as int,
                self.slots@[slot_index(day as int, part as int)],
            );
        }
    }

    /// Takes what persisted storage held for one task: a present value
    /// replaces the entry's input, absence leaves the grid untouched.
    pub fn load_input(&mut self, day: u8, part: u8, stored: Option<String>)
        requires
            old(self).wf(),
            valid_task(day as int, part as int),
        ensures
            final(self).wf(),
            final(self)@ == spec_load_input(
                old(self)@,
                day as int,
                part as int,
                match stored {
                    Option::None => Option::None,
                    Option::Some(s) => Option::Some(s@),
                },
            ),
    {
        match stored {
            None => {},
            Some(s) => {
                self.set_input(day, part, s);
            },
        }
    }
}

/// Slot of a valid task, as `slot_index` gives it.
pub fn slot_index_exec(day: u8, part: u8) -> (i: usize)
    requires
        valid_task(day as int, part as int),
    ensures
        i == slot_index(day as int, part as int),
{
    (day as usize - 1) * 2 + (part as usize - 1)
}

/// Updating one slot inserts one entry in the map the vector stands for.
proof fn lemma_grid_update(
    pre: Seq<Challenge>,
    post: Seq<Challenge>,
    day: int,
    part: int,
    c: Challenge,
)
    requires
        pre.len() == 50,
        valid_task(day, part),
        post == pre.update(slot_index(day, part), c),
    ensures
        grid_view_of(post) == grid_view_of(pre).insert((day, part), c@),
{
    lemma_slot_index_bounds(day, part);
    assert forall|id: (int, int)| #[trigger]
        valid_task(id.0, id.1) implies grid_view_of(post)[id] == grid_view_of(pre).insert(
        (day, part),
        c@,
    )[id] by {
        lemma_slot_index_bounds(id.0, id.1);
        if id.0 == day && id.1 == part {
        } else {
            if slot_index(id.0, id.1) == slot_index(day, part) {
                lemma_slot_index_injective(id.0, id.1, day, part);
            }
        }
    }
    assert(grid_view_of(post) =~= grid_view_of(pre).insert((day, part), c@));
}

} // verus!
