//! The escape-to-menu trigger: a pure mapping from one input event to a
//! transition decision.

use crate::session::TransitionDecision;
use vstd::prelude::*;

verus! {

/// The virtual keys the session mechanics distinguish.
#[derive(Clone, Copy, Debug, PartialEq, Eq, Structural)]
pub enum KeyCode {
    Escape,
    Return,
    Space,
    Left,
    Right,
    Up,
    Down,
}

/// A window event, as far as this library reads one.
#[derive(Clone, Copy, Debug, PartialEq, Eq, Structural)]
pub enum WindowEvent {
    KeyPressed(KeyCode),
    KeyReleased(KeyCode),
    CloseRequested,
    Resized,
}

/// An event handed to a game state: a window event, a UI event or a
/// bound-input event. Only window events carry anything this library
/// reads.
#[derive(Clone, Copy, Debug, PartialEq, Eq, Structural)]
pub enum StateEvent {
    Window(WindowEvent),
    Ui,
    Input,
}

/// The decision the escape trigger takes for an event: the Escape
/// key-press maps to the main-menu transition, everything else to
/// staying put.
pub open spec fn escape_decision(event: StateEvent) -> TransitionDecision {
    if event == StateEvent::Window(WindowEvent::KeyPressed(KeyCode::Escape)) {
        TransitionDecision::ReplaceMainMenu
    } else {
        TransitionDecision::Stay
    }
}

/// Returns the main-menu transition exactly for the Escape key-press
/// event; every other event leaves the state as it is.
pub fn return_to_main_menu_on_escape(event: StateEvent) -> (decision: TransitionDecision)
    ensures
        decision == escape_decision(event),
{
    match event {
        StateEvent::Window(WindowEvent::KeyPressed(KeyCode::Escape)) => {
            TransitionDecision::ReplaceMainMenu
        },
        _ => TransitionDecision::Stay,
    }
}

/// Escape-trigger purity: the decision is a function of the event alone,
/// so repeated calls with one event agree; every event that is not the
/// Escape key-press maps to `Stay`, and the Escape key-press maps to the
/// main-menu transition.
pub proof fn lemma_escape_trigger_pure(event: StateEvent)
    ensures
        event != StateEvent::Window(WindowEvent::KeyPressed(KeyCode::Escape))
            ==> escape_decision(event) == TransitionDecision::Stay,
        escape_decision(StateEvent::Window(WindowEvent::KeyPressed(KeyCode::Escape)))
            == TransitionDecision::ReplaceMainMenu,
{
}

} // verus!
