use crate::catalog::{Row, RowView};
use vstd::prelude::*;

verus! {

/// The pointer button that arms the latch: the secondary (right) button.
pub const RIGHT_BUTTON: u32 = 3;

/// The two states of the right-click latch.
#[derive(Clone, Copy, Debug, PartialEq, Eq, Structural)]
pub enum LatchState {
    /// No right-click is waiting for its selection change.
    Idle,
    /// A right-click was seen; the next selection change consumes it.
    Armed,
}

/// A notification from the row view.
#[derive(Debug, PartialEq, Eq)]
pub enum Signal {
    /// A pointer button was pressed over the view.
    PointerPress { button: u32, click_count: i32 },
    /// The highlighted row changed; `selected` is the row now highlighted, if
    /// there is one.
    SelectionChanged { selected: Option<Row> },
}

impl Clone for Signal {
    fn clone(&self) -> (copy: Self)
        ensures
            copy == *self,
    {
        match self {
            Signal::PointerPress { button, click_count } => Signal::PointerPress {
                button: *button,
                click_count: *click_count,
            },
            Signal::SelectionChanged { selected } => Signal::SelectionChanged {
                selected: match selected {
                    Some(row) => Some(row.clone()),
                    None => None,
                },
            },
        }
    }
}

/// What a [`Signal`] holds, as plain values.
pub enum SignalView {
    PointerPress { button: u32, click_count: i32 },
    SelectionChanged { selected: Option<RowView> },
}

impl View for Signal {
    type V = SignalView;

    open spec fn view(&self) -> SignalView {
        match *self {
            Signal::PointerPress { button, click_count } => SignalView::PointerPress {
                button,
                click_count,
            },
            Signal::SelectionChanged { selected } => SignalView::SelectionChanged {
                selected: match selected {
                    Some(row) => Some(row@),
                    None => None,
                },
            },
        }
    }
}

/// The view of the selected row, if there is one.
pub open spec fn selection_view(selected: Option<&Row>) -> Option<RowView> {
    match selected {
        Some(row) => Some(row@),
        None => None,
    }
}

/// The view of the text handed to the clipboard, if there is any.
pub open spec fn text_view(text: Option<String>) -> Option<Seq<char>> {
    match text {
        Some(s) => Some(s@),
        None => None,
    }
}

/// Whether a pointer press arms the latch: a single press of the right button.
pub open spec fn press_qualifies(button: u32, click_count: i32) -> bool {
    button == RIGHT_BUTTON && click_count == 1
}

/// The state that follows `state` once `signal` has been handled.
///
/// A qualifying press arms the latch and any other press leaves it as it was.
/// A selection change always leaves it idle.
pub open spec fn next_state(state: LatchState, signal: SignalView) -> LatchState {
    match signal {
        SignalView::PointerPress { button, click_count } => {
            if press_qualifies(button, click_count) {
                LatchState::Armed
            } else {
                state
            }
        },
        SignalView::SelectionChanged { .. } => LatchState::Idle,
    }
}

/// The text written to the clipboard when `signal` is handled in `state`:
/// the icon identifier of the selected row, and only for a selection change
/// that finds the latch armed and a row selected.
pub open spec fn copied_text(state: LatchState, signal: SignalView) -> Option<Seq<char>> {
    match (state, signal) {
        (LatchState::Armed, SignalView::SelectionChanged { selected: Some(row) }) => Some(
            row.icon_id,
        ),
        _ => None,
    }
}

/// Coordinates a right-button press with the selection change that follows
/// it, to decide when the selected row's icon identifier goes to the
/// clipboard.
///
/// The latch is owned by the controller and changes only through the two
/// handlers, each of which takes the controller exclusively for one whole
/// transition.
#[derive(Debug)]
pub struct SelectionCopyController {
    state: LatchState,
}

impl View for SelectionCopyController {
    type V = LatchState;

    closed spec fn view(&self) -> LatchState {
        self.state
    }
}

impl SelectionCopyController {
    /// A controller in its initial state: idle.
    pub fn new() -> (controller: Self)
        ensures
            controller@ == LatchState::Idle,
    {
        SelectionCopyController { state: LatchState::Idle }
    }

    /// Handles a pointer press. A single press of the right button arms the
    /// latch; every other press changes nothing. The selection is neither read
    /// nor changed.
    pub fn on_pointer_press(&mut self, button: u32, click_count: i32)
        ensures
            final(self)@ == next_state(
                old(self)@,
                SignalView::PointerPress { button, click_count },
            ),
            press_qualifies(button, click_count) ==> final(self)@ == LatchState::Armed,
            !press_qualifies(button, click_count) ==> final(self)@ == old(self)@,
    {
        if button == RIGHT_BUTTON && click_count == 1 {
            self.state = LatchState::Armed;
        }
    }

    /// Handles a change of the highlighted row and returns the text to write
    /// to the clipboard, if any.
    ///
    /// With the latch armed and a row selected, the result is that row's icon
    /// identifier. With the latch armed and no row selected, or with the latch
    /// idle, nothing is copied. In every case the latch is idle afterwards.
    pub fn on_selection_changed(&mut self, selected: Option<&Row>) -> (copied: Option<String>)
        ensures
            final(self)@ == next_state(
                old(self)@,
                SignalView::SelectionChanged { selected: selection_view(selected) },
            ),
            text_view(copied) == copied_text(
                old(self)@,
                SignalView::SelectionChanged { selected: selection_view(selected) },
            ),
            final(self)@ == LatchState::Idle,
            old(self)@ == LatchState::Idle ==> copied is None,
            selected is None ==> copied is None,
            old(self)@ == LatchState::Armed && selected is Some ==> copied is Some
                && copied->0@ == selected->0.icon_id@,
    {
        let armed = self.right_click_pending();
        self.state = LatchState::Idle;
        if armed {
            match selected {
                Some(row) => Some(row.icon_id.clone()),
                None => None,
            }
        } else {
            None
        }
    }

    /// Handles one signal: a pointer press as [`Self::on_pointer_press`] does
    /// and a selection change as [`Self::on_selection_changed`] does. Returns
    /// the text to write to the clipboard, if any.
    pub fn handle(&mut self, signal: &Signal) -> (copied: Option<String>)
        ensures
            final(self)@ == next_state(old(self)@, signal@),
            text_view(copied) == copied_text(old(self)@, signal@),
            signal is PointerPress ==> copied is None,
            signal is SelectionChanged ==> final(self)@ == LatchState::Idle,
            old(self)@ == LatchState::Idle ==> copied is None,
    {
        match signal {
            Signal::PointerPress { button, click_count } => {
                self.on_pointer_press(*button, *click_count);
                None
            },
            Signal::SelectionChanged { selected } => self.on_selection_changed(selected.as_ref()),
        }
    }

    /// The state of the latch.
    pub fn state(&self) -> (state: LatchState)
        ensures
            state == self@,
    {
        self.state
    }

    /// Whether a right-click is waiting for its selection change.
    pub fn right_click_pending(&self) -> (pending: bool)
        ensures
            pending == (self@ == LatchState::Armed),
    {
        match self.state {
            LatchState::Armed => true,
            LatchState::Idle => false,
        }
    }
}

impl Default for SelectionCopyController {
    fn default() -> (controller: Self)
        ensures
            controller@ == LatchState::Idle,
    {
        SelectionCopyController::new()
    }
}

} // verus!
