//! The cursor of a text input: a position between grapheme clusters, or a
//! selection between two such positions.

use crate::text_input::value::Value;
use vstd::prelude::*;

verus! {

/// The state of a cursor, in grapheme positions.
#[derive(Debug, Clone, Copy, PartialEq, Eq, Structural)]
pub enum State {
    /// The cursor is at a position.
    Index(usize),
    /// The cursor selects a range: from where the selection started to
    /// where it ends now, in either order.
    Selection {
        /// Where the selection started.
        start: usize,
        /// Where the selection ends.
        end: usize,
    },
}

/// The cursor of a text input.
#[derive(Debug, Clone, Copy, PartialEq, Eq, Structural)]
pub struct Cursor {
    state: State,
}

/// The smaller of two positions.
pub open spec fn min(a: int, b: int) -> int {
    if a <= b {
        a
    } else {
        b
    }
}

/// The larger of two positions.
pub open spec fn max(a: int, b: int) -> int {
    if a >= b {
        a
    } else {
        b
    }
}

/// The state of a cursor with its positions clamped to a value of `len`
/// clusters; a selection that clamps to nothing is a position.
pub open spec fn state_in(state: State, len: int) -> State {
    match state {
        State::Index(i) => State::Index(min(i as int, len) as usize),
        State::Selection { start, end } => {
            let s = min(start as int, len);
            let e = min(end as int, len);
            if s == e {
                State::Index(s as usize)
            } else {
                State::Selection { start: s as usize, end: e as usize }
            }
        },
    }
}

/// The selected range, ordered, when the clamped state is a selection.
pub open spec fn selection_in(state: State, len: int) -> Option<(usize, usize)> {
    match state_in(state, len) {
        State::Selection { start, end } => Some(
            (min(start as int, end as int) as usize, max(start as int, end as int) as usize),
        ),
        State::Index(_) => None,
    }
}

/// Where the cursor starts: its position, or where its selection started,
/// clamped to a value of `len` clusters.
pub open spec fn start_in(state: State, len: int) -> int {
    match state {
        State::Index(i) => min(i as int, len),
        State::Selection { start, .. } => min(start as int, len),
    }
}

/// Where the cursor ends: its position, or where its selection ends,
/// clamped to a value of `len` clusters.
pub open spec fn end_in(state: State, len: int) -> int {
    match state {
        State::Index(i) => min(i as int, len),
        State::Selection { end, .. } => min(end as int, len),
    }
}

/// Where moving left takes the cursor: one cluster left of its position
/// (not past the start), or to the start of its selection.
pub open spec fn moved_left(state: State, len: int) -> State {
    match state_in(state, len) {
        State::Index(i) => if i > 0 {
            State::Index((i - 1) as usize)
        } else {
            State::Index(0)
        },
        State::Selection { start, end } => State::Index(min(start as int, end as int) as usize),
    }
}

/// Over a value of `len` clusters: a position past the end reads as the
/// end, and one inside as itself, with the same start and end and no
/// selection; a selection between two distinct positions inside the value
/// reads as the range from the lower to the upper one, whichever way it
/// was made, starting where it was started and ending where it ends now.
/// Moving left goes from a position `p > 0` to `p - 1`, stays at the
/// start, and takes a selection to its lower end.
pub proof fn law_cursor_positions(len: usize, p: usize, start: usize, end: usize)
    ensures
        state_in(State::Index(p), len as int) == State::Index(if p <= len {
            p
        } else {
            len
        }),
        p <= len ==> {
            &&& selection_in(State::Index(p), len as int) is None
            &&& start_in(State::Index(p), len as int) == p
            &&& end_in(State::Index(p), len as int) == p
        },
        0 < p <= len ==> moved_left(State::Index(p), len as int) == State::Index((p - 1) as usize),
        moved_left(State::Index(0), len as int) == State::Index(0),
        (start != end && start <= len && end <= len) ==> {
            let lower = if start <= end {
                start
            } else {
                end
            };
            let upper = if start <= end {
                end
            } else {
                start
            };
            &&& selection_in(State::Selection { start, end }, len as int) == Some((lower, upper))
            &&& start_in(State::Selection { start, end }, len as int) == start
            &&& end_in(State::Selection { start, end }, len as int) == end
            &&& moved_left(State::Selection { start, end }, len as int) == State::Index(lower)
        },
{
}

impl Cursor {
    /// The raw state of the cursor, before clamping to any value.
    pub closed spec fn raw(&self) -> State {
        self.state
    }

    /// The state of the cursor over `value`.
    pub fn state(&self, value: &Value) -> (s: State)
        ensures
            s == state_in(self.raw(), value@.len() as int),
    {
        let len = value.len();
        match self.state {
            State::Index(index) => State::Index(if index < len {
                index
            } else {
                len
            }),
            State::Selection { start, end } => {
                let start = if start < len {
                    start
                } else {
                    len
                };
                let end = if end < len {
                    end
                } else {
                    len
                };
                if start == end {
                    State::Index(start)
                } else {
                    State::Selection { start, end }
                }
            },
        }
    }

    /// The selected range over `value`, ordered, if the cursor selects a
    /// non-empty one.
    pub fn selection(&self, value: &Value) -> (r: Option<(usize, usize)>)
        ensures
            r == selection_in(self.raw(), value@.len() as int),
    {
        match self.state(value) {
            State::Selection { start, end } => Some(
                (if start <= end {
                    start
                } else {
                    end
                }, if start >= end {
                    start
                } else {
                    end
                }),
            ),
            State::Index(_) => None,
        }
    }

    /// Where the cursor starts over `value`.
    pub fn start(&self, value: &Value) -> (p: usize)
        ensures
            p == start_in(self.raw(), value@.len() as int),
    {
        let len = value.len();
        let start = match self.state {
            State::Index(index) => index,
            State::Selection { start, .. } => start,
        };
        if start < len {
            start
        } else {
            len
        }
    }

    /// Where the cursor ends over `value`.
    pub fn end(&self, value: &Value) -> (p: usize)
        ensures
            p == end_in(self.raw(), value@.len() as int),
    {
        let len = value.len();
        let end = match self.state {
            State::Index(index) => index,
            State::Selection { end, .. } => end,
        };
        if end < len {
            end
        } else {
            len
        }
    }

    /// Moves the cursor to a position.
    pub fn move_to(&mut self, position: usize)
        ensures
            final(self).raw() == State::Index(position),
    {
        self.state = State::Index(position);
    }

    /// Selects the range between two positions; equal positions make a
    /// plain position.
    pub fn select_range(&mut self, start: usize, end: usize)
        ensures
            final(self).raw() == if start == end {
                State::Index(start)
            } else {
                State::Selection { start, end }
            },
    {
        self.state = if start == end {
            State::Index(start)
        } else {
            State::Selection { start, end }
        };
    }

    /// Moves the cursor one cluster left over `value`, or to the start of
    /// its selection.
    pub fn move_left(&mut self, value: &Value)
        ensures
            final(self).raw() == moved_left(old(self).raw(), value@.len() as int),
    {
        match self.state(value) {
            State::Index(index) => {
                if index > 0 {
                    self.move_to(index - 1)
                } else {
                    self.move_to(0)
                }
            },
            State::Selection { start, end } => self.move_to(
                if start <= end {
                    start
                } else {
                    end
                },
            ),
        }
    }
}

impl Default for Cursor {
    /// A cursor at the start of the text.
    fn default() -> (cursor: Cursor)
        ensures
            cursor.raw() == State::Index(0),
    {
        Cursor { state: State::Index(0) }
    }
}

} // verus!
