//! The operations that a handler asks its caller to run on the widget
//! tree, and the focus protocol that stateful widgets follow.

use crate::widget::Id;
use vstd::prelude::*;

verus! {

/// A direction of focus movement.
#[derive(Debug, Clone, Copy, PartialEq, Eq, Structural)]
pub enum Direction {
    /// Towards the next widget.
    Next,
    /// Towards the previous widget.
    Previous,
}

/// A scroll applied to the nearest scrollable ancestor of the focused
/// widget.
#[derive(Debug, Clone, Copy, PartialEq, Eq, Structural)]
pub enum ScrollAction {
    /// Scroll up by a page.
    PageUp,
    /// Scroll down by a page.
    PageDown,
    /// Scroll left by a page.
    PageLeft,
    /// Scroll right by a page.
    PageRight,
    /// Scroll up by a line.
    LineUp,
    /// Scroll down by a line.
    LineDown,
    /// Scroll left by a line.
    LineLeft,
    /// Scroll right by a line.
    LineRight,
    /// Scroll to the top.
    Home,
    /// Scroll to the bottom.
    End,
    /// Scroll to the left edge.
    ShiftHome,
    /// Scroll to the right edge.
    ShiftEnd,
}

/// An operation to run over the widget tree, to completion.
#[derive(Debug, Clone, PartialEq, Eq)]
pub enum Command {
    /// Move focus to the next focusable widget.
    FocusNext,
    /// Move focus to the previous focusable widget.
    FocusPrevious,
    /// Move focus to the next focusable widget inside the given scope.
    FocusNextWithin(Id),
    /// Move focus to the previous focusable widget inside the given scope.
    FocusPreviousWithin(Id),
    /// Scroll the focused widget into view.
    ScrollFocusedIntoView,
    /// Focus the widget with the given identifier.
    Focus(Id),
    /// Scroll the nearest scrollable ancestor of the focused widget.
    ScrollFocusedAncestor(ScrollAction),
}

/// The view of a handler's answer: the commands to run when it consumed
/// the event, or nothing when it did not.
pub open spec fn commands_view(r: Option<Vec<Command>>) -> Option<Seq<Command>> {
    match r {
        Some(v) => Some(v@),
        None => None,
    }
}

/// The state of a widget that can hold keyboard focus.
pub trait Focusable {
    /// Whether the widget holds focus.
    fn is_focused(&self) -> bool;

    /// Gives the widget focus.
    fn focus(&mut self);

    /// Takes focus away from the widget.
    fn unfocus(&mut self);
}

/// Holds when `i` is the first position of `id` among `peers`.
pub open spec fn is_first_index(peers: Seq<Id>, id: Id, i: int) -> bool {
    &&& 0 <= i < peers.len()
    &&& peers[i] == id
    &&& forall|j: int| 0 <= j < i ==> #[trigger] peers[j] != id
}

/// The position next to `i` among `n` peers in a direction, wrapping on
/// the ends: after the last comes the first, before the first the last.
pub open spec fn neighbour_index(i: int, n: int, direction: Direction) -> int {
    match direction {
        Direction::Next => if i + 1 == n {
            0
        } else {
            i + 1
        },
        Direction::Previous => if i == 0 {
            n - 1
        } else {
            i - 1
        },
    }
}

/// The peer that focus moves to from `focused` within a list of peers:
/// the neighbour, in the given direction, of the first slot holding
/// `focused`; none when `focused` is no peer.
pub open spec fn resolve_peer_spec(peers: Seq<Id>, focused: Id, direction: Direction) -> Option<Id> {
    if peers.contains(focused) {
        let i = choose|i: int| is_first_index(peers, focused, i);
        Some(peers[neighbour_index(i, peers.len() as int, direction)])
    } else {
        None
    }
}

/// Finds the peer that focus moves to from `focused` within its declared
/// list of peers: the next or previous slot, wrapping on the ends; `None`
/// when the focused widget is not itself one of the peers.
pub fn resolve_peer(peers: &Vec<Id>, focused: Id, direction: Direction) -> (r: Option<Id>)
    ensures
        r == resolve_peer_spec(peers@, focused, direction),
{
    let n = peers.len();
    let mut i: usize = 0;
    while i < n
        invariant
            n == peers@.len(),
            i <= n,
            forall|j: int| 0 <= j < i ==> #[trigger] peers@[j] != focused,
        decreases n - i,
    {
        if peers[i] == focused {
            proof {
                assert(is_first_index(peers@, focused, i as int));
                assert(peers@.contains(focused));
                let k = choose|k: int| is_first_index(peers@, focused, k);
                assert(k == i) by {
                    if k < i {
                        assert(peers@[k] != focused);
                    } else if k > i {
                        assert(peers@[i as int] != focused);
                    }
                }
            }
            let target = match direction {
                Direction::Next => if i + 1 == n {
                    0
                } else {
                    i + 1
                },
                Direction::Previous => if i == 0 {
                    n - 1
                } else {
                    i - 1
                },
            };
            return Some(peers[target]);
        }
        i = i + 1;
    }
    proof {
        if peers@.contains(focused) {
            let k = choose|k: int| 0 <= k < peers@.len() && peers@[k] == focused;
            assert(peers@[k] != focused);
        }
    }
    None
}

/// Within a list of distinct peers, moving focus to the next peer and then
/// to the previous one (or the other way round) comes back to the peer
/// that started.
pub proof fn law_peer_round_trip(peers: Seq<Id>, focused: Id, there: Direction, back: Direction)
    requires
        peers.no_duplicates(),
        peers.contains(focused),
        there != back,
    ensures
        resolve_peer_spec(peers, focused, there) matches Some(neighbour) && resolve_peer_spec(
            peers,
            neighbour,
            back,
        ) == Some(focused),
{
    let n = peers.len() as int;
    let w = choose|k: int| 0 <= k < peers.len() && peers[k] == focused;
    assert(is_first_index(peers, focused, w)) by {
        assert forall|j: int| 0 <= j < w implies #[trigger] peers[j] != focused by {
            if peers[j] == focused {
                assert(peers[j] == peers[w]);
            }
        }
    }
    let i = choose|i: int| is_first_index(peers, focused, i);
    assert(i == w) by {
        if i != w {
            assert(peers[i] == peers[w]);
        }
    }
    let j = neighbour_index(i, n, there);
    let neighbour = peers[j];
    assert(peers.contains(neighbour));
    assert(is_first_index(peers, neighbour, j)) by {
        assert forall|l: int| 0 <= l < j implies #[trigger] peers[l] != neighbour by {
            if peers[l] == neighbour {
                assert(peers[l] == peers[j]);
            }
        }
    }
    let k = choose|k: int| is_first_index(peers, neighbour, k);
    assert(k == j) by {
        if k != j {
            assert(peers[k] == peers[j]);
        }
    }
    assert(neighbour_index(j, n, back) == i);
}

} // verus!
