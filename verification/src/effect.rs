//! What the library asks of the outside world, and what the world answers.
//!
//! The library never touches the keyboard, the clipboard or the network. It
//! names one [`Action`] at a time; the caller carries it out and reports an
//! [`Event`]. The key sequences that the rules are made of are defined here.

use crate::translate::{HttpRequest, HttpRequestView, HttpResponse, HttpResponseView};
use vstd::prelude::*;

verus! {

/// Milliseconds to wait before a synthesized chord, so that it does not run
/// into the keys of the hotkey that are still going up.
pub const SETTLE_MILLIS: u64 = 50;

/// Milliseconds to wait after a chord, for the focused application to act on
/// it.
pub const CHORD_MILLIS: u64 = 100;

/// Milliseconds to wait between writing the clipboard and pasting from it.
pub const PASTE_MILLIS: u64 = 50;

/// A key of the simulated keyboard.
#[derive(Clone, Copy, Debug, PartialEq, Eq)]
pub enum Key {
    Shift,
    Control,
    Alt,
    Unicode(char),
}

/// What happens to a key.
#[derive(Clone, Copy, Debug, PartialEq, Eq)]
pub enum Direction {
    Press,
    Release,
    /// A press followed by a release.
    Click,
}

/// One synthesized key event.
#[derive(Clone, Copy, Debug, PartialEq, Eq)]
pub struct KeyStroke {
    pub key: Key,
    pub direction: Direction,
}

/// One thing for the caller to do.
#[derive(Debug, PartialEq, Eq)]
pub enum Action {
    /// Synthesize a key event.
    Stroke(KeyStroke),
    /// Let the given number of milliseconds pass.
    Wait(u64),
    /// Read the clipboard's text.
    ReadClipboard,
    /// Put the text on the clipboard.
    WriteClipboard(String),
    /// Send the request and wait for the reply.
    Send(HttpRequest),
}

/// What an [`Action`] holds.
#[verifier::ext_equal]
pub enum ActionView {
    Stroke(KeyStroke),
    Wait(u64),
    ReadClipboard,
    WriteClipboard(Seq<char>),
    Send(HttpRequestView),
}

impl View for Action {
    type V = ActionView;

    open spec fn view(&self) -> ActionView {
        match self {
            Action::Stroke(stroke) => ActionView::Stroke(*stroke),
            Action::Wait(millis) => ActionView::Wait(*millis),
            Action::ReadClipboard => ActionView::ReadClipboard,
            Action::WriteClipboard(text) => ActionView::WriteClipboard(text@),
            Action::Send(request) => ActionView::Send(request@),
        }
    }
}

/// What came of an [`Action`].
#[derive(Clone, Debug, PartialEq, Eq)]
pub enum Event {
    /// The action was carried out; it has nothing to report.
    Completed,
    /// The action could not be carried out.
    Failed,
    /// The clipboard was read and held this text. A clipboard that is
    /// unavailable or holds no text is reported as the empty text.
    ClipboardText(String),
    /// The service answered.
    Response(HttpResponse),
}

/// What an [`Event`] holds.
pub enum EventView {
    Completed,
    Failed,
    ClipboardText(Seq<char>),
    Response(HttpResponseView),
}

impl View for Event {
    type V = EventView;

    open spec fn view(&self) -> EventView {
        match self {
            Event::Completed => EventView::Completed,
            Event::Failed => EventView::Failed,
            Event::ClipboardText(text) => EventView::ClipboardText(text@),
            Event::Response(response) => EventView::Response(response@),
        }
    }
}

impl EventView {
    /// The text that a reading of the clipboard gave. Any event that is no
    /// clipboard text counts as the empty text.
    pub open spec fn clipboard_text(self) -> Seq<char> {
        match self {
            EventView::ClipboardText(text) => text,
            _ => Seq::empty(),
        }
    }
}

/// What each of `actions` holds, in their order.
pub open spec fn views(actions: Seq<Action>) -> Seq<ActionView> {
    actions.map_values(|action: Action| action@)
}

/// The action that synthesizes one key event.
pub open spec fn stroke(key: Key, direction: Direction) -> ActionView {
    ActionView::Stroke(KeyStroke { key, direction })
}

/// Letting go of every modifier that the hotkey may have left down: Shift,
/// Control, Alt, in that order.
pub open spec fn release_script() -> Seq<ActionView> {
    seq![
        stroke(Key::Shift, Direction::Release),
        stroke(Key::Control, Direction::Release),
        stroke(Key::Alt, Direction::Release),
    ]
}

/// The chord of Control and a letter: Control down, the letter clicked,
/// Control up.
pub open spec fn chord_script(letter: char) -> Seq<ActionView> {
    seq![
        stroke(Key::Control, Direction::Press),
        stroke(Key::Unicode(letter), Direction::Click),
        stroke(Key::Control, Direction::Release),
    ]
}

/// How often `wanted` occurs among `actions`.
pub open spec fn occurrences(actions: Seq<ActionView>, wanted: ActionView) -> nat
    decreases actions.len(),
{
    if actions.len() == 0 {
        0
    } else {
        occurrences(actions.drop_last(), wanted) + if actions.last() == wanted {
            1nat
        } else {
            0nat
        }
    }
}

/// How many of `actions` send a request.
pub open spec fn sent(actions: Seq<ActionView>) -> nat
    decreases actions.len(),
{
    if actions.len() == 0 {
        0
    } else {
        sent(actions.drop_last()) + if actions.last() is Send {
            1nat
        } else {
            0nat
        }
    }
}

/// How many of `actions` write the clipboard.
pub open spec fn written(actions: Seq<ActionView>) -> nat
    decreases actions.len(),
{
    if actions.len() == 0 {
        0
    } else {
        written(actions.drop_last()) + if actions.last() is WriteClipboard {
            1nat
        } else {
            0nat
        }
    }
}

/// The actions that let go of Shift, Control and Alt.
pub fn release_modifiers() -> (actions: Vec<Action>)
    ensures
        views(actions@) == release_script(),
{
    let mut actions: Vec<Action> = Vec::new();
    actions.push(Action::Stroke(KeyStroke { key: Key::Shift, direction: Direction::Release }));
    actions.push(Action::Stroke(KeyStroke { key: Key::Control, direction: Direction::Release }));
    actions.push(Action::Stroke(KeyStroke { key: Key::Alt, direction: Direction::Release }));
    assert(views(actions@) =~= release_script());
    actions
}

/// The actions of the chord of Control and `letter`.
pub fn control_chord(letter: char) -> (actions: Vec<Action>)
    ensures
        views(actions@) == chord_script(letter),
{
    let mut actions: Vec<Action> = Vec::new();
    actions.push(Action::Stroke(KeyStroke { key: Key::Control, direction: Direction::Press }));
    actions.push(
        Action::Stroke(KeyStroke { key: Key::Unicode(letter), direction: Direction::Click }),
    );
    actions.push(Action::Stroke(KeyStroke { key: Key::Control, direction: Direction::Release }));
    assert(views(actions@) =~= chord_script(letter));
    actions
}

} // verus!
