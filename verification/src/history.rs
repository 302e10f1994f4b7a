use crate::controller::{copied_text, next_state, press_qualifies, LatchState, SignalView};
use vstd::prelude::*;

verus! {

/// The state of the latch once `signals` have been handled in order, starting
/// from `start`.
pub open spec fn state_after(start: LatchState, signals: Seq<SignalView>) -> LatchState
    decreases signals.len(),
{
    if signals.len() == 0 {
        start
    } else {
        next_state(state_after(start, signals.drop_last()), signals.last())
    }
}

/// Whether `signal` is a pointer press that arms the latch.
pub open spec fn is_qualifying_press(signal: SignalView) -> bool {
    match signal {
        SignalView::PointerPress { button, click_count } => press_qualifies(button, click_count),
        SignalView::SelectionChanged { .. } => false,
    }
}

/// Whether `signal` is a selection change.
pub open spec fn is_selection_change(signal: SignalView) -> bool {
    signal is SelectionChanged
}

/// Whether `signals[at]` is a qualifying press that no selection change
/// follows.
pub open spec fn pending_press_at(signals: Seq<SignalView>, at: int) -> bool {
    &&& 0 <= at < signals.len()
    &&& is_qualifying_press(signals[at])
    &&& forall|later: int|
        at < later < signals.len() ==> !is_selection_change(#[trigger] signals[later])
}

/// Whether some qualifying press in `signals` is still waiting for its
/// selection change.
pub open spec fn has_pending_press(signals: Seq<SignalView>) -> bool {
    exists|at: int| pending_press_at(signals, at)
}

/// The text that the last of `signals` sends to the clipboard, when the
/// signals are handled in order by a controller that starts idle.
pub open spec fn copied_by_last(signals: Seq<SignalView>) -> Option<Seq<char>>
    recommends
        signals.len() > 0,
{
    copied_text(state_after(LatchState::Idle, signals.drop_last()), signals.last())
}

/// Latch correctness: after any sequence of signals, handled from the idle
/// state, the latch is armed if and only if the sequence holds a qualifying
/// press that no selection change has followed yet.
pub proof fn lemma_armed_iff_pending_press(signals: Seq<SignalView>)
    ensures
        state_after(LatchState::Idle, signals) == LatchState::Armed <==> has_pending_press(signals),
    decreases signals.len(),
{
    if signals.len() == 0 {
    } else {
        let before = signals.drop_last();
        let last = signals.last();
        let end = signals.len() - 1;
        lemma_armed_iff_pending_press(before);
        if is_selection_change(last) {
            assert forall|at: int| !pending_press_at(signals, at) by {
                if 0 <= at < end {
                    assert(is_selection_change(signals[end]));
                }
            }
        } else if is_qualifying_press(last) {
            assert(pending_press_at(signals, end));
        } else {
            if has_pending_press(before) {
                let at = choose|at: int| pending_press_at(before, at);
                assert forall|later: int| at < later < signals.len() implies !is_selection_change(
                    #[trigger] signals[later],
                ) by {
                    if later < end {
                        assert(signals[later] == before[later]);
                    }
                }
                assert(pending_press_at(signals, at));
            }
            if has_pending_press(signals) {
                let at = choose|at: int| pending_press_at(signals, at);
                assert forall|later: int| at < later < before.len() implies !is_selection_change(
                    #[trigger] before[later],
                ) by {
                    assert(before[later] == signals[later]);
                }
                assert(pending_press_at(before, at));
            }
        }
    }
}

/// One-shot: whatever the state was before, once a selection change has been
/// handled the latch is idle.
pub proof fn lemma_selection_change_disarms(start: LatchState, signals: Seq<SignalView>)
    requires
        signals.len() > 0,
        is_selection_change(signals.last()),
    ensures
        state_after(start, signals) == LatchState::Idle,
{
}

/// No spurious copy: a signal handled while the latch is idle writes nothing
/// to the clipboard.
pub proof fn lemma_idle_never_copies(signal: SignalView)
    ensures
        copied_text(LatchState::Idle, signal) is None,
{
}

/// Empty-selection safety: a selection change with no row selected leaves the
/// latch idle and writes nothing to the clipboard, armed or not.
pub proof fn lemma_empty_selection_is_silent(state: LatchState)
    ensures
        next_state(state, SignalView::SelectionChanged { selected: None }) == LatchState::Idle,
        copied_text(state, SignalView::SelectionChanged { selected: None }) is None,
{
}

/// Copy fidelity along a history: the last of `signals` writes `text` to the
/// clipboard if and only if it is a selection change with a row selected,
/// `text` is exactly that row's icon identifier, and a qualifying press before
/// it has had no selection change since.
pub proof fn lemma_copy_iff_press_then_selection(signals: Seq<SignalView>, text: Seq<char>)
    requires
        signals.len() > 0,
    ensures
        copied_by_last(signals) == Some(text) <==> {
            &&& signals.last() matches SignalView::SelectionChanged { selected: Some(row) }
            &&& row.icon_id == text
            &&& has_pending_press(signals.drop_last())
        },
{
    lemma_armed_iff_pending_press(signals.drop_last());
}

} // verus!
