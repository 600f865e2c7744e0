//! Editing a text input: inserting, pasting, and deleting around the
//! cursor.

use crate::text_input::cursor::{end_in, moved_left, selection_in, start_in, Cursor, State};
use crate::text_input::value::{count_starting_before, grapheme_clusters, Value};
use vstd::prelude::*;

verus! {

/// The text around an insertion of `content` into a value of clusters
/// `value` under a cursor: a selection is first removed and the cursor
/// moved to where it started; the text up to the cursor's end followed by
/// `content` comes first, the rest of the text second.
pub open spec fn insert_parts(value: Seq<Seq<char>>, cursor: State, content: Seq<char>) -> (
    Seq<char>,
    Seq<char>,
) {
    let len = value.len() as int;
    let (kept, moved) = match selection_in(cursor, len) {
        Some((left, right)) => (
            value.subrange(0, left as int) + value.subrange(right as int, len),
            moved_left(cursor, len),
        ),
        None => (value, cursor),
    };
    let at = end_in(moved, kept.len() as int);
    (kept.take(at).flatten() + content, kept.skip(at).flatten())
}

/// The text after inserting `content`: the old text, less the selection,
/// with `content` spliced in at the cursor.
pub open spec fn inserted_text(value: Seq<Seq<char>>, cursor: State, content: Seq<char>) -> Seq<
    char,
> {
    let (before, after) = insert_parts(value, cursor, content);
    before + after
}

/// What inserting `content` does to a value of clusters `value` under a
/// cursor: the text is spliced as [`inserted_text`] says, the whole text is
/// split into clusters anew, and the cursor lands just past the inserted
/// text.
pub open spec fn insert_spec(value: Seq<Seq<char>>, cursor: State, content: Seq<char>) -> (
    Seq<Seq<char>>,
    State,
) {
    let (before, after) = insert_parts(value, cursor, content);
    let clusters = grapheme_clusters(before + after);
    (clusters, State::Index(count_starting_before(clusters, before.len() as int) as usize))
}

/// What backspace does: a selection is removed and the cursor moved to
/// where it started; otherwise the cluster before the cursor, if any, is
/// removed and the cursor moves left over it.
pub open spec fn backspace_spec(value: Seq<Seq<char>>, cursor: State) -> (Seq<Seq<char>>, State) {
    let len = value.len() as int;
    match selection_in(cursor, len) {
        Some((start, end)) => (
            value.subrange(0, start as int) + value.subrange(end as int, len),
            moved_left(cursor, len),
        ),
        None => {
            let start = start_in(cursor, len);
            if start > 0 {
                (value.remove(start - 1), moved_left(cursor, len))
            } else {
                (value, cursor)
            }
        },
    }
}

/// What delete does: a selection is removed as by backspace; otherwise
/// the cluster after the cursor, if any, is removed and the cursor stays.
pub open spec fn delete_spec(value: Seq<Seq<char>>, cursor: State) -> (Seq<Seq<char>>, State) {
    let len = value.len() as int;
    match selection_in(cursor, len) {
        Some(_) => backspace_spec(value, cursor),
        None => {
            let end = end_in(cursor, len);
            if end < len {
                (value.remove(end), cursor)
            } else {
                (value, cursor)
            }
        },
    }
}

/// The smaller of two positions.
pub open spec fn lower(a: usize, b: usize) -> int {
    if a <= b {
        a as int
    } else {
        b as int
    }
}

/// The larger of two positions.
pub open spec fn upper(a: usize, b: usize) -> int {
    if a <= b {
        b as int
    } else {
        a as int
    }
}

/// Typing at a cursor with no selection, at position `p` of the value,
/// puts the typed text between the first `p` clusters and the rest: the
/// text becomes the clusters before `p`, the typed text, then the clusters
/// from `p` on. The new clusters are those of that text, and the cursor
/// lands after every cluster that starts before the typed text ends.
pub proof fn law_insert_at_cursor(value: Seq<Seq<char>>, p: usize, content: Seq<char>)
    requires
        p <= value.len(),
    ensures
        inserted_text(value, State::Index(p), content) == value.take(p as int).flatten() + content
            + value.skip(p as int).flatten(),
        insert_spec(value, State::Index(p), content).0 == grapheme_clusters(
            value.take(p as int).flatten() + content + value.skip(p as int).flatten(),
        ),
        insert_spec(value, State::Index(p), content).1 == State::Index(
            count_starting_before(
                insert_spec(value, State::Index(p), content).0,
                (value.take(p as int).flatten() + content).len() as int,
            ) as usize,
        ),
{
}

/// Typing over a selection replaces it, whichever way it was made: the
/// text becomes the clusters before the selection's lower end, the typed
/// text, then the clusters from its upper end on; the cursor lands after
/// every cluster that starts before the typed text ends.
pub proof fn law_insert_replaces_selection(
    value: Seq<Seq<char>>,
    start: usize,
    end: usize,
    content: Seq<char>,
)
    requires
        start != end,
        start <= value.len(),
        end <= value.len(),
    ensures
        ({
            let l = lower(start, end);
            let r = upper(start, end);
            let cursor = State::Selection { start, end };
            let text = value.take(l).flatten() + content + value.skip(r).flatten();
            &&& inserted_text(value, cursor, content) == text
            &&& insert_spec(value, cursor, content).0 == grapheme_clusters(text)
            &&& insert_spec(value, cursor, content).1 == State::Index(
                count_starting_before(
                    grapheme_clusters(text),
                    (value.take(l).flatten() + content).len() as int,
                ) as usize,
            )
        }),
{
    let l = lower(start, end);
    let r = upper(start, end);
    let len = value.len() as int;
    let kept = value.subrange(0, l) + value.subrange(r, len);
    assert(kept.take(l) =~= value.take(l));
    assert(kept.skip(l) =~= value.skip(r));
}

/// Backspace with the cursor at position `p > 0` and no selection removes
/// the cluster just before the cursor and leaves the cursor before where
/// that cluster was: the clusters before the cursor are the first `p - 1`,
/// and those after it are the ones that followed the cursor. At the start
/// of the text it changes nothing.
pub proof fn law_backspace_removes_previous_cluster(value: Seq<Seq<char>>, p: usize)
    requires
        p <= value.len(),
    ensures
        p > 0 ==> backspace_spec(value, State::Index(p)) == (
            value.take(p - 1) + value.skip(p as int),
            State::Index((p - 1) as usize),
        ),
        p > 0 ==> backspace_spec(value, State::Index(p)).0.take(p - 1) == value.take(p - 1),
        p == 0 ==> backspace_spec(value, State::Index(p)) == (value, State::Index(p)),
{
    if p > 0 {
        assert(value.remove(p - 1) =~= value.take(p - 1) + value.skip(p as int));
        assert((value.take(p - 1) + value.skip(p as int)).take(p - 1) =~= value.take(p - 1));
    }
}

/// Backspace or delete over a selection removes the selected clusters,
/// whichever way the selection was made, and leaves the cursor where the
/// selection's lower end was.
pub proof fn law_erase_selection(value: Seq<Seq<char>>, start: usize, end: usize)
    requires
        start != end,
        start <= value.len(),
        end <= value.len(),
    ensures
        backspace_spec(value, State::Selection { start, end }) == (
            value.take(lower(start, end)) + value.skip(upper(start, end)),
            State::Index(lower(start, end) as usize),
        ),
        delete_spec(value, State::Selection { start, end }) == backspace_spec(
            value,
            State::Selection { start, end },
        ),
{
    let len = value.len() as int;
    assert(value.subrange(0, lower(start, end)) =~= value.take(lower(start, end)));
    assert(value.subrange(upper(start, end), len) =~= value.skip(upper(start, end)));
}

/// Delete with the cursor at position `p` and no selection removes the
/// cluster just after the cursor and leaves the cursor where it was; at the
/// end of the text it changes nothing.
pub proof fn law_delete_removes_next_cluster(value: Seq<Seq<char>>, p: usize)
    requires
        p <= value.len(),
    ensures
        p < value.len() ==> delete_spec(value, State::Index(p)) == (
            value.take(p as int) + value.skip(p + 1),
            State::Index(p),
        ),
        p == value.len() ==> delete_spec(value, State::Index(p)) == (value, State::Index(p)),
{
    if p < value.len() {
        assert(value.remove(p as int) =~= value.take(p as int) + value.skip(p + 1));
    }
}

/// An editor over the value and the cursor of a text input.
pub struct Editor<'a> {
    /// The value being edited.
    pub value: &'a mut Value,
    /// The cursor over it.
    pub cursor: &'a mut Cursor,
}

impl<'a> Editor<'a> {
    /// Creates an editor over a value and a cursor.
    pub fn new(value: &'a mut Value, cursor: &'a mut Cursor) -> (editor: Editor<'a>)
        ensures
            *editor.value == *old(value),
            *editor.cursor == *old(cursor),
            *final(editor.value) == *final(value),
            *final(editor.cursor) == *final(cursor),
    {
        Editor { value, cursor }
    }

    /// The text being edited.
    pub fn contents(&self) -> (text: String)
        ensures
            text@ == (*old(self.value))@.flatten(),
    {
        self.value.to_string()
    }

    /// Inserts text at the cursor, replacing the selection if there is one.
    pub fn insert(&mut self, content: &str)
        ensures
            ((*final(self).value)@, final(self).cursor.raw()) == insert_spec(
                (*old(self).value)@,
                old(self).cursor.raw(),
                content@,
            ),
            (*final(self).value)@.flatten() == inserted_text(
                (*old(self).value)@,
                old(self).cursor.raw(),
                content@,
            ),
            forall|i: int|
                0 <= i < (*final(self).value)@.len() ==> (#[trigger] (*final(self).value)@[i]).len()
                    > 0,
            *final(final(self).value) == *final(old(self).value),
            *final(final(self).cursor) == *final(old(self).cursor),
    {
        self.insert_value(Value::new(content));
    }

    /// Pastes a value at the cursor, replacing the selection if there is
    /// one.
    pub fn paste(&mut self, content: Value)
        ensures
            ((*final(self).value)@, final(self).cursor.raw()) == insert_spec(
                (*old(self).value)@,
                old(self).cursor.raw(),
                content@.flatten(),
            ),
            (*final(self).value)@.flatten() == inserted_text(
                (*old(self).value)@,
                old(self).cursor.raw(),
                content@.flatten(),
            ),
            forall|i: int|
                0 <= i < (*final(self).value)@.len() ==> (#[trigger] (*final(self).value)@[i]).len()
                    > 0,
            *final(final(self).value) == *final(old(self).value),
            *final(final(self).cursor) == *final(old(self).cursor),
    {
        self.insert_value(content);
    }

    fn insert_value(&mut self, content: Value)
        ensures
            ((*final(self).value)@, final(self).cursor.raw()) == insert_spec(
                (*old(self).value)@,
                old(self).cursor.raw(),
                content@.flatten(),
            ),
            (*final(self).value)@.flatten() == inserted_text(
                (*old(self).value)@,
                old(self).cursor.raw(),
                content@.flatten(),
            ),
            forall|i: int|
                0 <= i < (*final(self).value)@.len() ==> (#[trigger] (*final(self).value)@[i]).len()
                    > 0,
            *final(final(self).value) == *final(old(self).value),
            *final(final(self).cursor) == *final(old(self).cursor),
    {
        match self.cursor.selection(self.value) {
            Some((left, right)) => {
                self.cursor.move_left(self.value);
                self.value.remove_many(left, right);
            },
            None => {},
        }
        let at = self.cursor.end(self.value);
        let position = self.value.insert_many_at(at, content);
        self.cursor.move_to(position);
    }

    /// Deletes the selection, or else the grapheme cluster before the
    /// cursor.
    pub fn backspace(&mut self)
        ensures
            ((*final(self).value)@, final(self).cursor.raw()) == backspace_spec(
                (*old(self).value)@,
                old(self).cursor.raw(),
            ),
            *final(final(self).value) == *final(old(self).value),
            *final(final(self).cursor) == *final(old(self).cursor),
    {
        match self.cursor.selection(self.value) {
            Some((start, end)) => {
                self.cursor.move_left(self.value);
                self.value.remove_many(start, end);
            },
            None => {
                let start = self.cursor.start(self.value);
                if start > 0 {
                    self.cursor.move_left(self.value);
                    self.value.remove(start - 1);
                }
            },
        }
    }

    /// Deletes the selection, or else the grapheme cluster after the
    /// cursor.
    pub fn delete(&mut self)
        ensures
            ((*final(self).value)@, final(self).cursor.raw()) == delete_spec(
                (*old(self).value)@,
                old(self).cursor.raw(),
            ),
            *final(final(self).value) == *final(old(self).value),
            *final(final(self).cursor) == *final(old(self).cursor),
    {
        match self.cursor.selection(self.value) {
            Some(_) => {
                self.backspace();
            },
            None => {
                let end = self.cursor.end(self.value);
                if end < self.value.len() {
                    self.value.remove(end);
                }
            },
        }
    }
}

} // verus!
