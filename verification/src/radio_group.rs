//! A group of radio buttons managed as a single tab stop.
//!
//! A [`RadioGroup`] lists N options, manages focus as one unit, and lets
//! the user move between options with arrow keys following the WAI-ARIA
//! radio group pattern: Down/Right select the next option, Up/Left the
//! previous one, both wrapping on the ends; Space re-selects the active
//! option; Escape gives up focus; a click selects the option under the
//! cursor.

use crate::accessible::{blank, Accessible, Role};
use crate::event::{is_press, is_press_event, is_redraw, is_redraw_event, named_key_press,
    named_press, Event, Interaction, Named};
use crate::operation::Focusable;
use vstd::arithmetic::div_mod::{lemma_mod_add_multiples_vanish, lemma_small_mod};
use vstd::prelude::*;
use vstd::std_specs::cmp::PartialEqSpec;

verus! {

/// The state that a radio group keeps between events.
#[derive(Debug, Clone, Copy, PartialEq, Eq, Structural)]
pub struct State {
    /// The option that keyboard navigation starts from.
    pub active_index: usize,
    /// Whether the group holds keyboard focus.
    pub is_focused: bool,
    /// Whether the focus ring is shown (focus came from the keyboard).
    pub focus_visible: bool,
}

impl Default for State {
    /// Starts at the first option, without focus.
    fn default() -> (state: State)
        ensures
            state == (State { active_index: 0, is_focused: false, focus_visible: false }),
    {
        State { active_index: 0, is_focused: false, focus_visible: false }
    }
}

impl Focusable for State {
    fn is_focused(&self) -> (b: bool)
        ensures
            b == self.is_focused,
    {
        self.is_focused
    }

    /// Focus given from outside (e.g. by Tab) shows the focus ring.
    fn focus(&mut self)
        ensures
            *final(self) == (State { is_focused: true, focus_visible: true, ..*old(self) }),
    {
        self.is_focused = true;
        self.focus_visible = true;
    }

    fn unfocus(&mut self)
        ensures
            *final(self) == (State { is_focused: false, focus_visible: false, ..*old(self) }),
    {
        self.is_focused = false;
        self.focus_visible = false;
    }
}

/// How a radio group reacted to an event.
#[derive(Debug, Clone, Copy, PartialEq, Eq, Structural)]
pub struct Reaction {
    /// The option whose value is to be published as selected.
    pub published: Option<usize>,
    /// Whether the event was captured.
    pub captured: bool,
    /// Whether a redraw is requested.
    pub redraw_requested: bool,
}

/// The state once the active option follows a selection made elsewhere:
/// `synced` is the position of the selected value among the options.
pub open spec fn synced_state(state: State, synced: Option<usize>) -> State {
    match synced {
        Some(index) => State { active_index: index, ..state },
        None => state,
    }
}

/// Holds of the keys that select the next option.
pub open spec fn is_next_key(named: Named) -> bool {
    named == Named::ArrowDown || named == Named::ArrowRight
}

/// Holds of the keys that select the previous option.
pub open spec fn is_previous_key(named: Named) -> bool {
    named == Named::ArrowUp || named == Named::ArrowLeft
}

/// The option after `index` among `total`, wrapping to the first.
pub open spec fn next_index(index: int, total: int) -> int {
    (index + 1) % total
}

/// The option before `index` among `total`, wrapping to the last.
pub open spec fn previous_index(index: int, total: int) -> int {
    (index + total - 1) % total
}

/// Holds where an update would fail: a key moves or re-selects from an
/// active index so large that the arithmetic overflows, or Space
/// re-selects an active index that lies past the options (left over from
/// a longer list).
pub open spec fn update_fails(state: State, total: int, synced: Option<usize>, event: Event) -> bool {
    let s = synced_state(state, synced);
    &&& total > 0
    &&& !is_press(event)
    &&& s.is_focused
    &&& match named_press(event) {
        Some((named, _)) => {
            ||| is_next_key(named) && s.active_index + 1 > usize::MAX
            ||| is_previous_key(named) && s.active_index + total - 1 > usize::MAX
            ||| named == Named::Space && s.active_index >= total
        },
        None => false,
    }
}

/// How a radio group with `total` options reacts to an event, given the
/// position `synced` of the externally selected value, the option `hit`
/// under the cursor, and whether the cursor is over the group at all.
///
/// - With no options, nothing happens.
/// - A click on an option makes it active, focuses the group without the
///   focus ring, selects the option and captures the event.
/// - A click elsewhere in the group does nothing; outside it, the group
///   loses focus.
/// - While focused, Down/Right and Up/Left move to the next and previous
///   option (wrapping) and select it, Space re-selects the active option,
///   and Escape gives up focus; each captures the event.
/// - Every event but a click on an option and a redraw request asks for a
///   redraw.
pub open spec fn update_spec(
    state: State,
    total: int,
    synced: Option<usize>,
    event: Event,
    hit: Option<usize>,
    over_group: bool,
) -> (State, Reaction) {
    let s = synced_state(state, synced);
    let redraw = !is_redraw(event);
    if total == 0 {
        (state, Reaction { published: None, captured: false, redraw_requested: false })
    } else if is_press(event) {
        match hit {
            Some(i) => (
                State { active_index: i, is_focused: true, focus_visible: false },
                Reaction { published: Some(i), captured: true, redraw_requested: false },
            ),
            None => (
                if over_group {
                    s
                } else {
                    State { is_focused: false, focus_visible: false, ..s }
                },
                Reaction { published: None, captured: false, redraw_requested: redraw },
            ),
        }
    } else {
        match named_press(event) {
            Some((named, _)) => if s.is_focused && is_next_key(named) {
                let i = next_index(s.active_index as int, total) as usize;
                (
                    State { active_index: i, ..s },
                    Reaction { published: Some(i), captured: true, redraw_requested: redraw },
                )
            } else if s.is_focused && is_previous_key(named) {
                let i = previous_index(s.active_index as int, total) as usize;
                (
                    State { active_index: i, ..s },
                    Reaction { published: Some(i), captured: true, redraw_requested: redraw },
                )
            } else if s.is_focused && named == Named::Space {
                (
                    s,
                    Reaction {
                        published: Some(s.active_index),
                        captured: true,
                        redraw_requested: redraw,
                    },
                )
            } else if s.is_focused && named == Named::Escape {
                (
                    State { is_focused: false, focus_visible: false, ..s },
                    Reaction { published: None, captured: true, redraw_requested: redraw },
                )
            } else {
                (s, Reaction { published: None, captured: false, redraw_requested: redraw })
            },
            None => (s, Reaction { published: None, captured: false, redraw_requested: redraw }),
        }
    }
}

/// Applies an event to the state of a radio group with `total` options;
/// see [`update_spec`]. Every option that it publishes is one of the
/// `total`.
pub fn update_state(
    state: &mut State,
    total: usize,
    synced: Option<usize>,
    event: &Event,
    hit: Option<usize>,
    over_group: bool,
) -> (r: Reaction)
    requires
        synced matches Some(i) ==> i < total,
        hit matches Some(i) ==> i < total,
        !update_fails(*old(state), total as int, synced, *event),
    ensures
        (*final(state), r) == update_spec(*old(state), total as int, synced, *event, hit, over_group),
        r.published matches Some(i) ==> i < total,
        total > 0 && (synced is Some || old(state).active_index < total)
            ==> final(state).active_index < total,
{
    if total == 0 {
        return Reaction { published: None, captured: false, redraw_requested: false };
    }
    match synced {
        Some(index) => state.active_index = index,
        None => {},
    }
    let redraw = !is_redraw_event(event);
    if is_press_event(event) {
        match hit {
            Some(i) => {
                state.active_index = i;
                state.is_focused = true;
                state.focus_visible = false;
                return Reaction { published: Some(i), captured: true, redraw_requested: false };
            },
            None => {
                if !over_group {
                    state.is_focused = false;
                    state.focus_visible = false;
                }
                return Reaction { published: None, captured: false, redraw_requested: redraw };
            },
        }
    }
    match named_key_press(event) {
        Some((named, _)) => {
            if state.is_focused && (named == Named::ArrowDown || named == Named::ArrowRight) {
                state.active_index = (state.active_index + 1) % total;
                Reaction { published: Some(state.active_index), captured: true, redraw_requested: redraw }
            } else if state.is_focused && (named == Named::ArrowUp || named == Named::ArrowLeft) {
                state.active_index = (state.active_index + (total - 1)) % total;
                Reaction { published: Some(state.active_index), captured: true, redraw_requested: redraw }
            } else if state.is_focused && named == Named::Space {
                Reaction { published: Some(state.active_index), captured: true, redraw_requested: redraw }
            } else if state.is_focused && named == Named::Escape {
                state.is_focused = false;
                state.focus_visible = false;
                Reaction { published: None, captured: true, redraw_requested: redraw }
            } else {
                Reaction { published: None, captured: false, redraw_requested: redraw }
            }
        },
        None => Reaction { published: None, captured: false, redraw_requested: redraw },
    }
}

/// Among `total` options, the previous option of the next one is the
/// option itself, and so is the next option of the previous one; both stay
/// among the options.
pub proof fn lemma_next_previous_inverse(index: int, total: int)
    requires
        0 <= index < total,
    ensures
        0 <= next_index(index, total) < total,
        0 <= previous_index(index, total) < total,
        previous_index(next_index(index, total), total) == index,
        next_index(previous_index(index, total), total) == index,
{
    lemma_small_mod(index as nat, total as nat);
    if index + 1 < total {
        lemma_small_mod((index + 1) as nat, total as nat);
        lemma_mod_add_multiples_vanish(index, total);
    } else {
        lemma_mod_add_multiples_vanish(0, total);
        lemma_small_mod(0, total as nat);
        lemma_small_mod((total - 1) as nat, total as nat);
    }
    if index == 0 {
        lemma_small_mod((total - 1) as nat, total as nat);
        lemma_mod_add_multiples_vanish(0, total);
        lemma_small_mod(0, total as nat);
    } else {
        lemma_mod_add_multiples_vanish(index - 1, total);
        lemma_small_mod((index - 1) as nat, total as nat);
    }
}

/// On a focused radio group, a key that selects the next option followed
/// by one that selects the previous option (or the other way round) comes
/// back to the option that was active, keeps focus, and selects that
/// option again.
pub proof fn law_arrows_round_trip(
    state: State,
    total: int,
    first: Event,
    second: Event,
    over_group: bool,
)
    requires
        0 <= state.active_index < total <= usize::MAX,
        state.is_focused,
        named_press(first) matches Some((a, _)) && named_press(second) matches Some((b, _)) && (
        (is_next_key(a) && is_previous_key(b)) || (is_previous_key(a) && is_next_key(b))),
    ensures
        ({
            let (middle, _) = update_spec(state, total, None, first, None, over_group);
            let (last, reaction) = update_spec(middle, total, None, second, None, over_group);
            &&& last == state
            &&& reaction.published == Some(state.active_index)
            &&& reaction.captured
        }),
{
    lemma_next_previous_inverse(state.active_index as int, total);
    assert(!is_press(first) && !is_press(second));
}

/// A radio group without focus reacts to no key: no key press, release
/// or modifier change publishes a value or is captured, and the group
/// stays without focus and keeps its focus ring as it was. Only a click
/// or touch on an option selects while the group is unfocused.
pub proof fn law_unfocused_group_ignores_keys(
    state: State,
    total: int,
    synced: Option<usize>,
    event: Event,
    hit: Option<usize>,
    over_group: bool,
)
    requires
        !state.is_focused,
        event matches Event::Keyboard(_),
    ensures
        ({
            let (after, reaction) = update_spec(state, total, synced, event, hit, over_group);
            &&& reaction.published is None
            &&& !reaction.captured
            &&& !after.is_focused
            &&& after.focus_visible == state.focus_visible
        }),
{
    assert(!is_press(event));
}

/// On a focused group of `total` options whose active option is `a`:
/// Down and Right select the option after `a`, the first one after the
/// last; Up and Left select the option before `a`, the last one before the
/// first; Space selects `a` again; Escape gives up focus and selects
/// nothing. Each of these keys is captured.
pub proof fn law_focused_keys(state: State, total: int, event: Event, over_group: bool)
    requires
        state.is_focused,
        0 <= state.active_index < total <= usize::MAX,
        named_press(event) is Some,
    ensures
        ({
            let a = state.active_index as int;
            let (named, _) = named_press(event)->Some_0;
            let (after, reaction) = update_spec(state, total, None, event, None, over_group);
            &&& (named == Named::ArrowDown || named == Named::ArrowRight) ==> {
                &&& after.active_index == if a + 1 < total {
                    a + 1
                } else {
                    0
                }
                &&& after.is_focused
                &&& reaction.published == Some(after.active_index)
                &&& reaction.captured
            }
            &&& (named == Named::ArrowUp || named == Named::ArrowLeft) ==> {
                &&& after.active_index == if a > 0 {
                    a - 1
                } else {
                    total - 1
                }
                &&& after.is_focused
                &&& reaction.published == Some(after.active_index)
                &&& reaction.captured
            }
            &&& named == Named::Space ==> {
                &&& after == state
                &&& reaction.published == Some(state.active_index)
                &&& reaction.captured
            }
            &&& named == Named::Escape ==> {
                &&& !after.is_focused
                &&& !after.focus_visible
                &&& after.active_index == state.active_index
                &&& reaction.published is None
                &&& reaction.captured
            }
        }),
{
    let a = state.active_index as int;
    assert(!is_press(event));
    lemma_small_mod(a as nat, total as nat);
    if a + 1 < total {
        lemma_small_mod((a + 1) as nat, total as nat);
    } else {
        lemma_mod_add_multiples_vanish(0, total);
        lemma_small_mod(0, total as nat);
    }
    if a > 0 {
        lemma_mod_add_multiples_vanish(a - 1, total);
        lemma_small_mod((a - 1) as nat, total as nat);
    } else {
        lemma_small_mod((total - 1) as nat, total as nat);
    }
}

/// A click or touch on option `i` of a non-empty group makes it the
/// active option, focuses the group without showing the focus ring,
/// selects it and is captured; a click outside the group takes focus away
/// and selects nothing.
pub proof fn law_click(
    state: State,
    total: int,
    synced: Option<usize>,
    event: Event,
    hit: Option<usize>,
    over_group: bool,
)
    requires
        total > 0,
        is_press(event),
    ensures
        ({
            let (after, reaction) = update_spec(state, total, synced, event, hit, over_group);
            &&& hit matches Some(i) ==> {
                &&& after == (State { active_index: i, is_focused: true, focus_visible: false })
                &&& reaction.published == Some(i)
                &&& reaction.captured
            }
            &&& (hit is None && !over_group) ==> {
                &&& !after.is_focused
                &&& !after.focus_visible
                &&& reaction.published is None
                &&& !reaction.captured
            }
            &&& (hit is None && over_group) ==> {
                &&& after.is_focused == state.is_focused
                &&& reaction.published is None
                &&& !reaction.captured
            }
        }),
{
}

/// An option is drawn focused only when it is the active option of a
/// group that shows its focus ring; otherwise hovered when the cursor is
/// over it; otherwise plain; and always with whether it is selected.
pub proof fn law_option_status(state: State, index: usize, is_mouse_over: bool, is_selected: bool)
    ensures
        (index == state.active_index && state.focus_visible) ==> option_status_spec(
            state,
            index,
            is_mouse_over,
            is_selected,
        ) == (RadioStatus::Focused { is_selected }),
        !(index == state.active_index && state.focus_visible) && is_mouse_over
            ==> option_status_spec(state, index, is_mouse_over, is_selected)
            == (RadioStatus::Hovered { is_selected }),
        !(index == state.active_index && state.focus_visible) && !is_mouse_over
            ==> option_status_spec(state, index, is_mouse_over, is_selected)
            == (RadioStatus::Active { is_selected }),
{
}

/// How a radio group with values of type `V` reacted to an event.
#[derive(Debug, Clone, Copy, PartialEq, Eq)]
pub struct Update<V> {
    /// The value to publish as selected, if any.
    pub published: Option<V>,
    /// Whether the event was captured.
    pub captured: bool,
    /// Whether a redraw is requested.
    pub redraw_requested: bool,
}

/// The state of one option, for styling.
#[derive(Debug, Clone, Copy, PartialEq, Eq, Structural)]
pub enum RadioStatus {
    /// The option can be interacted with.
    Active {
        /// Whether the option is the selected one.
        is_selected: bool,
    },
    /// The cursor is over the option.
    Hovered {
        /// Whether the option is the selected one.
        is_selected: bool,
    },
    /// The option is the active one of a group that shows its focus ring.
    Focused {
        /// Whether the option is the selected one.
        is_selected: bool,
    },
}

/// The accessibility metadata of a radio group: one node for the group
/// and one per option, in order.
#[derive(Debug, Clone)]
pub struct AccessibleTree<N> {
    /// The node of the group.
    pub group: Accessible<N>,
    /// The nodes of the options.
    pub options: Vec<Accessible<N>>,
    /// The text content of the options: their labels, in order.
    pub texts: Vec<String>,
    /// Whether the group is a focus stop.
    pub focusable: bool,
}

/// Holds when option `i` is the first whose value equals `target` (by the
/// values' `==`).
pub open spec fn is_first_match<V: PartialEq>(values: Seq<V>, target: V, i: int) -> bool {
    &&& 0 <= i < values.len()
    &&& values[i].eq_spec(&target)
    &&& forall|j: int| 0 <= j < i ==> !(#[trigger] values[j]).eq_spec(&target)
}

/// The position of the first value equal to `target`, if any.
pub open spec fn first_match<V: PartialEq>(values: Seq<V>, target: V) -> Option<int> {
    if exists|i: int| is_first_match(values, target, i) {
        Some(choose|i: int| is_first_match(values, target, i))
    } else {
        None
    }
}

/// An integer position, as an index.
pub open spec fn as_position(p: Option<int>) -> Option<usize> {
    match p {
        Some(i) => Some(i as usize),
        None => None,
    }
}

/// A position, as an integer.
pub open spec fn position_view(p: Option<usize>) -> Option<int> {
    match p {
        Some(i) => Some(i as int),
        None => None,
    }
}

/// A group of radio buttons that acts as a single tab stop with arrow-key
/// navigation. Selecting an option publishes its value, which the caller
/// turns into a message.
pub struct RadioGroup<V> {
    options: Vec<(String, V)>,
    selected: Option<V>,
}

impl<V: Copy + PartialEq> RadioGroup<V> {
    /// The `(label, value)` pairs of the options, in order.
    pub closed spec fn options_view(&self) -> Seq<(String, V)> {
        self.options@
    }

    /// The values of the options, in order.
    pub open spec fn values(&self) -> Seq<V> {
        self.options_view().map_values(|option: (String, V)| option.1)
    }

    /// The currently selected value, if any.
    pub closed spec fn selected_view(&self) -> Option<V> {
        self.selected
    }

    /// Whether option `i` holds the selected value (by the values' `==`).
    pub open spec fn selects(&self, i: int) -> bool {
        match self.selected_view() {
            Some(s) => s.eq_spec(&self.values()[i]),
            None => false,
        }
    }

    /// The position of the selected value among the options, if any.
    pub open spec fn selected_position(&self) -> Option<int> {
        match self.selected_view() {
            Some(s) => first_match(self.values(), s),
            None => None,
        }
    }

    /// Creates a new [`RadioGroup`] from its `(label, value)` options and
    /// the currently selected value, if any.
    pub fn new(options: Vec<(String, V)>, selected: Option<V>) -> (group: Self)
        ensures
            group.options_view() == options@,
            group.selected_view() == selected,
    {
        RadioGroup { options, selected }
    }

    /// The number of options.
    pub fn len(&self) -> (n: usize)
        ensures
            n == self.options_view().len(),
    {
        self.options.len()
    }

    /// The value of option `index`.
    pub fn value(&self, index: usize) -> (v: V)
        requires
            index < self.options_view().len(),
        ensures
            v == self.values()[index as int],
    {
        self.options[index].1
    }

    /// Whether option `index` holds the selected value.
    pub fn is_selected(&self, index: usize) -> (b: bool)
        requires
            index < self.options_view().len(),
        ensures
            V::obeys_eq_spec() ==> b == self.selects(index as int),
    {
        match self.selected {
            Some(s) => s == self.options[index].1,
            None => false,
        }
    }

    /// Finds the position of the selected value among the options.
    pub fn position_of_selected(&self) -> (r: Option<usize>)
        ensures
            r matches Some(i) ==> i < self.options_view().len(),
            self.selected_view() is None ==> r is None,
            V::obeys_eq_spec() ==> position_view(r) == self.selected_position(),
    {
        match self.selected {
            None => None,
            Some(target) => {
                let n = self.options.len();
                let mut i: usize = 0;
                while i < n
                    invariant
                        n == self.options@.len(),
                        i <= n,
                        self.selected == Some(target),
                        V::obeys_eq_spec() ==> forall|j: int|
                            0 <= j < i ==> !(#[trigger] self.values()[j]).eq_spec(&target),
                    decreases n - i,
                {
                    if self.options[i].1 == target {
                        proof {
                            if V::obeys_eq_spec() {
                                assert(is_first_match(self.values(), target, i as int));
                                assert forall|k: int| #[trigger]
                                    is_first_match(self.values(), target, k) implies k == i by {
                                    if k < i {
                                        assert(!self.values()[k].eq_spec(&target));
                                    } else if k > i {
                                        assert(!self.values()[i as int].eq_spec(&target));
                                    }
                                }
                            }
                        }
                        return Some(i);
                    }
                    i = i + 1;
                }
                proof {
                    if V::obeys_eq_spec() {
                        assert forall|k: int| !is_first_match(self.values(), target, k) by {
                            if 0 <= k < n {
                                assert(!self.values()[k].eq_spec(&target));
                            }
                        }
                    }
                }
                None
            },
        }
    }
    /// Holds when `new` and `r` are how this group reacts, from state
    /// `old`, to `event` with the option `hit` under the cursor, when the
    /// selected value is found at position `synced`.
    pub open spec fn reacts(
        &self,
        old: State,
        new: State,
        event: Event,
        hit: Option<usize>,
        over_group: bool,
        synced: Option<usize>,
        r: Update<V>,
    ) -> bool {
        let (state, reaction) = update_spec(
            old,
            self.options_view().len() as int,
            synced,
            event,
            hit,
            over_group,
        );
        &&& new == state
        &&& r.captured == reaction.captured
        &&& r.redraw_requested == reaction.redraw_requested
        &&& r.published == match reaction.published {
            Some(i) => Some(self.values()[i as int]),
            None => None,
        }
    }

    /// Processes an event; see [`update_spec`] for what happens.
    ///
    /// The caller measures which option the cursor is over (`hit`, the
    /// first option whose bounds hold the cursor) and whether the cursor is
    /// over the group at all; the active option first follows the selected
    /// value wherever that is found among the options. A published value
    /// is to be turned into the group's selection message.
    ///
    /// The update must not fail (see [`update_fails`]) from the position
    /// where the selected value is found, or from the stored active option
    /// when it is not found. Where the values' `==` is not known to follow
    /// its specification, the position found is not known either, and the
    /// update must not fail from the stored active option nor from any
    /// option. Afterwards the active option lies among the options whenever
    /// it did before or the selected value is found.
    pub fn update(&self, state: &mut State, event: &Event, hit: Option<usize>, over_group: bool) -> (r:
        Update<V>)
        requires
            hit matches Some(i) ==> i < self.options_view().len(),
            V::obeys_eq_spec() ==> !update_fails(
                *old(state),
                self.options_view().len() as int,
                as_position(self.selected_position()),
                *event,
            ),
            !V::obeys_eq_spec() ==> {
                &&& !update_fails(*old(state), self.options_view().len() as int, None, *event)
                &&& forall|i: usize|
                    i < self.options_view().len() ==> !update_fails(
                        *old(state),
                        self.options_view().len() as int,
                        Some(i),
                        *event,
                    )
            },
        ensures
            self.options_view().len() > 0 && (old(state).active_index < self.options_view().len()
                || (V::obeys_eq_spec() && self.selected_position() is Some))
                ==> final(state).active_index < self.options_view().len(),
            exists|synced: Option<usize>|
                {
                    &&& synced matches Some(i) ==> i < self.options_view().len()
                    &&& self.selected_view() is None ==> synced is None
                    &&& V::obeys_eq_spec() ==> position_view(synced) == self.selected_position()
                    &&& #[trigger] self.reacts(
                        *old(state),
                        *final(state),
                        *event,
                        hit,
                        over_group,
                        synced,
                        r,
                    )
                },
    {
        let total = self.options.len();
        let synced = self.position_of_selected();
        let reaction = update_state(state, total, synced, event, hit, over_group);
        let published = match reaction.published {
            Some(i) => Some(self.options[i].1),
            None => None,
        };
        let r = Update {
            published,
            captured: reaction.captured,
            redraw_requested: reaction.redraw_requested,
        };
        assert(self.reacts(*old(state), *state, *event, hit, over_group, synced, r));
        r
    }

    /// Whether the cursor over a group shows a pointer: it does over an
    /// option.
    pub fn mouse_interaction(&self, hit: Option<usize>) -> (i: Interaction)
        ensures
            i == if hit is Some {
                Interaction::Pointer
            } else {
                Interaction::Idle
            },
    {
        match hit {
            Some(_) => Interaction::Pointer,
            None => Interaction::default(),
        }
    }

    /// How option `index` is drawn: focused when it is the active option
    /// and the focus ring is shown, else hovered when the cursor is over
    /// it, else plain; each along with whether it is the selected option.
    pub fn option_status(&self, state: &State, index: usize, is_mouse_over: bool) -> (r:
        RadioStatus)
        requires
            index < self.options_view().len(),
        ensures
            V::obeys_eq_spec() ==> r == option_status_spec(
                *state,
                index,
                is_mouse_over,
                self.selects(index as int),
            ),
            exists|sel: bool| r == option_status_spec(*state, index, is_mouse_over, sel),
    {
        let is_selected = self.is_selected(index);
        let is_active = index == state.active_index;
        let r = if is_active && state.focus_visible {
            RadioStatus::Focused { is_selected }
        } else if is_mouse_over {
            RadioStatus::Hovered { is_selected }
        } else {
            RadioStatus::Active { is_selected }
        };
        assert(r == option_status_spec(*state, index, is_mouse_over, is_selected));
        r
    }

    /// The accessibility metadata of the group: a [`Role::Group`] node,
    /// then for each option a [`Role::RadioButton`] node with its label,
    /// whether it is selected, its 1-based position and the number of
    /// options, and its label as text content. The group is a focus stop only when it has options; a
    /// group without options gives up focus.
    pub fn accessibility<N>(&self, state: &mut State) -> (tree: AccessibleTree<N>)
        ensures
            tree.group == blank::<N>(Role::Group),
            tree.options@.len() == self.options_view().len(),
            forall|i: int|
                0 <= i < self.options_view().len() ==> #[trigger] tree.options@[i] == option_node::<
                    N,
                >(self.options_view()[i].0, tree.options@[i].selected->0, i, self.options_view().len() as int),
            forall|i: int|
                0 <= i < self.options_view().len() ==> (#[trigger] tree.options@[i]).selected is Some,
            V::obeys_eq_spec() ==> forall|i: int|
                0 <= i < self.options_view().len() ==> (#[trigger] tree.options@[i]).selected
                    == Some(self.selects(i)),
            tree.texts@.len() == self.options_view().len(),
            forall|i: int|
                0 <= i < self.options_view().len() ==> #[trigger] tree.texts@[i]
                    == self.options_view()[i].0,
            tree.focusable == (self.options_view().len() > 0),
            *final(state) == if self.options_view().len() > 0 {
                *old(state)
            } else {
                State { is_focused: false, focus_visible: false, ..*old(state) }
            },
    {
        let total = self.options.len();
        let group: Accessible<N> = Accessible { role: Role::Group, ..Accessible::default() };
        let mut options: Vec<Accessible<N>> = Vec::new();
        let mut texts: Vec<String> = Vec::new();
        let mut i: usize = 0;
        while i < total
            invariant
                total == self.options@.len(),
                i <= total,
                options@.len() == i,
                texts@.len() == i,
                forall|k: int| 0 <= k < i ==> #[trigger] texts@[k] == self.options_view()[k].0,
                forall|k: int|
                    0 <= k < i ==> #[trigger] options@[k] == option_node::<N>(
                        self.options_view()[k].0,
                        options@[k].selected->0,
                        k,
                        total as int,
                    ),
                forall|k: int| 0 <= k < i ==> (#[trigger] options@[k]).selected is Some,
                V::obeys_eq_spec() ==> forall|k: int|
                    0 <= k < i ==> (#[trigger] options@[k]).selected == Some(self.selects(k)),
            decreases total - i,
        {
            let selected = self.is_selected(i);
            let node: Accessible<N> = Accessible {
                role: Role::RadioButton,
                label: Some(self.options[i].0.clone()),
                selected: Some(selected),
                position_in_set: Some(i + 1),
                size_of_set: Some(total),
                ..Accessible::default()
            };
            options.push(node);
            texts.push(self.options[i].0.clone());
            i = i + 1;
        }
        if total == 0 {
            state.unfocus();
        }
        AccessibleTree { group, options, texts, focusable: total > 0 }
    }
}

/// How an option is drawn, given whether it is the selected one.
pub open spec fn option_status_spec(state: State, index: usize, is_mouse_over: bool, is_selected: bool) -> RadioStatus {
    if index == state.active_index && state.focus_visible {
        RadioStatus::Focused { is_selected }
    } else if is_mouse_over {
        RadioStatus::Hovered { is_selected }
    } else {
        RadioStatus::Active { is_selected }
    }
}

/// The node of option `i` of `total`, with its label and selection state.
pub open spec fn option_node<N>(label: String, selected: bool, i: int, total: int) -> Accessible<N> {
    Accessible {
        label: Some(label),
        selected: Some(selected),
        position_in_set: Some((i + 1) as usize),
        size_of_set: Some(total as usize),
        ..blank::<N>(Role::RadioButton)
    }
}

} // verus!
