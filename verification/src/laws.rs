//! The laws of the display state machine: properties that hold of every
//! event sequence, stated over the mathematical model and proved once and
//! for all.

use vstd::prelude::*;
use vstd::arithmetic::div_mod::lemma_div_is_ordered;

use crate::state::Directive;
use crate::state::Message;
use crate::state::StateModel;
use crate::state::bumped_line;
use crate::state::computed_width;
use crate::state::directive_of;
use crate::state::label_of;
use crate::state::model_wf;
use crate::state::raw_width;
use crate::state::recomputed;
use crate::state::stepped;

verus! {

/// The state after processing a sequence of events in order.
pub open spec fn run(s: StateModel, ms: Seq<Message>) -> StateModel
    decreases ms.len(),
{
    if ms.len() == 0 {
        s
    } else {
        stepped(run(s, ms.drop_last()), ms.last())
    }
}

/// Law: one update cycle preserves well-formedness; in particular the
/// line number stays between 1 and 3.
pub proof fn lemma_step_preserves_wf(s: StateModel, m: Message)
    requires
        model_wf(s),
    ensures
        model_wf(stepped(s, m)),
        1 <= stepped(s, m).line <= 3,
{
}

/// Law: from any well-formed state, after every processed event sequence
/// the state is well-formed and `1 <= line <= 3` holds; as this is shown
/// for every sequence, it holds after every intermediate event as well.
pub proof fn lemma_line_bounded(s: StateModel, ms: Seq<Message>)
    requires
        model_wf(s),
    ensures
        model_wf(run(s, ms)),
        1 <= run(s, ms).line <= 3,
    decreases ms.len(),
{
    if ms.len() > 0 {
        lemma_line_bounded(s, ms.drop_last());
        lemma_step_preserves_wf(run(s, ms.drop_last()), ms.last());
    }
}

/// Whether every event in the sequence is a key press, from either source.
pub open spec fn all_key_presses(ms: Seq<Message>) -> bool {
    forall|i: int|
        0 <= i < ms.len() ==> (ms[i] is GlobalKeyPress || ms[i] is LocalKeyPress)
}

/// The space-joined concatenation " L1 L2 ... LN" of the labels of a
/// sequence of key presses.
pub open spec fn joined_labels(ms: Seq<Message>) -> Seq<char>
    decreases ms.len(),
{
    if ms.len() == 0 {
        Seq::empty()
    } else {
        joined_labels(ms.drop_last()) + " "@ + label_of(ms.last())
    }
}

/// Law: each key press appends exactly one leading space plus its label,
/// so while the line number stays 1 throughout (no wrap and no reset),
/// consecutive key presses leave the text equal to the starting text
/// followed by the space-joined labels.
pub proof fn lemma_text_accumulates(s: StateModel, ms: Seq<Message>)
    requires
        model_wf(s),
        all_key_presses(ms),
        forall|i: int| 0 <= i <= ms.len() ==> (#[trigger] run(s, ms.take(i))).line == 1,
    ensures
        run(s, ms).keys == s.keys + joined_labels(ms),
    decreases ms.len(),
{
    if ms.len() == 0 {
        assert(run(s, ms).keys =~= s.keys + joined_labels(ms));
    } else {
        let prefix = ms.drop_last();
        let last = ms.last();
        assert forall|i: int| 0 <= i <= prefix.len() implies (#[trigger] run(
            s,
            prefix.take(i),
        )).line == 1 by {
            assert(prefix.take(i) =~= ms.take(i));
            assert(run(s, ms.take(i)).line == 1);
        }
        lemma_text_accumulates(s, prefix);
        lemma_line_bounded(s, prefix);
        let p = run(s, prefix);
        assert(prefix =~= ms.take(ms.len() - 1));
        assert(p.line == 1);
        assert(ms.take(ms.len() as int) =~= ms);
        assert(run(s, ms).line == 1);
        // The final line number is 1, so the wrap check at the last step
        // did not fire and the recompute phase left the text untouched.
        assert(recomputed(p).keys == p.keys);
        assert(run(s, ms).keys =~= s.keys + joined_labels(ms));
    }
}

/// Law: the wrap trigger is monotonic in text length: with the same line
/// number and width cap, a longer text never yields a smaller line number
/// out of the wrap check (absent the reset, which the check feeds).
pub proof fn lemma_wrap_monotonic(s1: StateModel, s2: StateModel)
    requires
        s1.line == s2.line,
        s1.max_width == s2.max_width,
        0 <= s1.keys.len() <= s2.keys.len(),
    ensures
        bumped_line(s1) <= bumped_line(s2),
{
    lemma_div_is_ordered(s1.keys.len() as int, s2.keys.len() as int, 2);
}

/// Law: clamping the stored width into the `u32` range never changes the
/// wrap decision: the stored width reaches the cap exactly when the
/// unclamped mathematical estimate does.
pub proof fn lemma_clamp_keeps_wrap_decision(s: StateModel)
    requires
        1 <= s.max_width <= u32::MAX,
    ensures
        (computed_width(s) >= s.max_width) <==> (raw_width(
            s.keys.len() as int,
            s.line,
            s.max_width,
        ) >= s.max_width),
{
}

/// Law: the reset is atomic: whenever the wrap check would push the line
/// number past 3, the recompute phase yields line 1 together with empty
/// text; otherwise it leaves the text untouched and the line number at
/// the checked value. Never the one without the other.
pub proof fn lemma_reset_atomic(s: StateModel)
    ensures
        bumped_line(s) > 3 ==> recomputed(s).line == 1 && recomputed(s).keys
            == Seq::<char>::empty(),
        bumped_line(s) <= 3 ==> recomputed(s).line == bumped_line(s) && recomputed(s).keys
            == s.keys,
{
}

/// Law: a cursor-moved event while the anchor still holds the sentinel
/// `(0, 0)` never emits a directive; it only captures the anchor.
pub proof fn lemma_anchor_capture_silent(s: StateModel, px: i32, py: i32)
    requires
        s.grab_location == (0int, 0int),
    ensures
        directive_of(s, Message::CursorMoved(px, py)) is None,
        stepped(s, Message::CursorMoved(px, py)).grab_location == (px as int, py as int),
{
}

/// Law: once the anchor is captured, a cursor-moved event while dragging
/// emits a move directive whose offset from the tracked window position
/// equals the cursor's offset from the anchor.
pub proof fn lemma_drag_delta(s: StateModel, px: i32, py: i32)
    requires
        s.is_grabbing,
        s.grab_location != (0int, 0int),
        i32::MIN <= px as int + s.window_position.0 - s.grab_location.0 <= i32::MAX,
        i32::MIN <= py as int + s.window_position.1 - s.grab_location.1 <= i32::MAX,
    ensures
        match directive_of(s, Message::CursorMoved(px, py)) {
            Some(Directive::MoveTo { x, y }) => {
                &&& x as int - s.window_position.0 == px as int - s.grab_location.0
                &&& y as int - s.window_position.1 == py as int - s.grab_location.1
            },
            _ => false,
        },
{
}

/// Law: a window-moved confirmation always overwrites the tracked window
/// position with the exact reported coordinates, whether or not a drag is
/// in progress, and touches neither the drag flag nor the anchor.
pub proof fn lemma_window_moved_confirms(s: StateModel, x: i32, y: i32)
    ensures
        stepped(s, Message::WindowMoved(x, y)).window_position == (x as int, y as int),
        stepped(s, Message::WindowMoved(x, y)).is_grabbing == s.is_grabbing,
        stepped(s, Message::WindowMoved(x, y)).grab_location == s.grab_location,
{
}

} // verus!
