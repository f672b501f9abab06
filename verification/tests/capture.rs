use translate_tool::capture::{fallback_actions, selection_actions, Capture};
use translate_tool::effect::{
    control_chord, release_modifiers, Action, Direction, Event, Key, KeyStroke, CHORD_MILLIS,
    SETTLE_MILLIS,
};

/// A desk in memory: a clipboard, and an application that answers the copy
/// and select-all chords.
struct Desk {
    clipboard: String,
    selection: Option<String>,
    document: String,
    control_down: bool,
    fail_at: Option<usize>,
    performed: Vec<Action>,
}

impl Desk {
    fn new(clipboard: &str, selection: Option<&str>, document: &str) -> Desk {
        Desk {
            clipboard: clipboard.to_string(),
            selection: selection.map(|text| text.to_string()),
            document: document.to_string(),
            control_down: false,
            fail_at: None,
            performed: Vec::new(),
        }
    }

    fn perform(&mut self, action: Action) -> Event {
        let place = self.performed.len();
        let event = if self.fail_at == Some(place) {
            Event::Failed
        } else {
            match &action {
                Action::Stroke(KeyStroke { key: Key::Control, direction: Direction::Press }) => {
                    self.control_down = true;
                    Event::Completed
                }
                Action::Stroke(KeyStroke { key: Key::Control, direction: Direction::Release }) => {
                    self.control_down = false;
                    Event::Completed
                }
                Action::Stroke(KeyStroke { key: Key::Unicode('c'), direction: Direction::Click }) => {
                    if self.control_down {
                        if let Some(selected) = &self.selection {
                            self.clipboard = selected.clone();
                        }
                    }
                    Event::Completed
                }
                Action::Stroke(KeyStroke { key: Key::Unicode('a'), direction: Direction::Click }) => {
                    if self.control_down {
                        self.selection = Some(self.document.clone());
                    }
                    Event::Completed
                }
                Action::Stroke(_) => Event::Completed,
                Action::Wait(_) => Event::Completed,
                Action::ReadClipboard => Event::ClipboardText(self.clipboard.clone()),
                Action::WriteClipboard(text) => {
                    self.clipboard = text.clone();
                    Event::Completed
                }
                Action::Send(_) => Event::Failed,
            }
        };
        self.performed.push(action);
        event
    }

    fn capture(&mut self) -> Option<String> {
        let mut capture = Capture::start();
        while let Some(action) = capture.pending() {
            let event = self.perform(action);
            capture = capture.advance(event);
        }
        assert!(capture.is_finished());
        capture.captured()
    }

    fn clicks_of(&self, letter: char) -> usize {
        let wanted =
            Action::Stroke(KeyStroke { key: Key::Unicode(letter), direction: Direction::Click });
        self.performed.iter().filter(|action| **action == wanted).count()
    }
}

fn stroke(key: Key, direction: Direction) -> Action {
    Action::Stroke(KeyStroke { key, direction })
}

fn expected_selection_actions() -> Vec<Action> {
    vec![
        stroke(Key::Shift, Direction::Release),
        stroke(Key::Control, Direction::Release),
        stroke(Key::Alt, Direction::Release),
        Action::ReadClipboard,
        Action::Wait(50),
        stroke(Key::Control, Direction::Press),
        stroke(Key::Unicode('c'), Direction::Click),
        stroke(Key::Control, Direction::Release),
        Action::Wait(100),
        Action::ReadClipboard,
    ]
}

fn expected_fallback_actions() -> Vec<Action> {
    vec![
        stroke(Key::Shift, Direction::Release),
        stroke(Key::Control, Direction::Release),
        stroke(Key::Alt, Direction::Release),
        Action::Wait(50),
        stroke(Key::Control, Direction::Press),
        stroke(Key::Unicode('a'), Direction::Click),
        stroke(Key::Control, Direction::Release),
        Action::Wait(100),
        stroke(Key::Control, Direction::Press),
        stroke(Key::Unicode('c'), Direction::Click),
        stroke(Key::Control, Direction::Release),
        Action::Wait(100),
        Action::ReadClipboard,
    ]
}

#[test]
fn delays_are_fifty_and_hundred_milliseconds() {
    assert_eq!(SETTLE_MILLIS, 50);
    assert_eq!(CHORD_MILLIS, 100);
}

#[test]
fn release_modifiers_lets_go_of_shift_control_alt() {
    assert_eq!(
        release_modifiers(),
        vec![
            stroke(Key::Shift, Direction::Release),
            stroke(Key::Control, Direction::Release),
            stroke(Key::Alt, Direction::Release),
        ]
    );
}

#[test]
fn chord_presses_clicks_and_releases_in_that_order() {
    assert_eq!(
        control_chord('v'),
        vec![
            stroke(Key::Control, Direction::Press),
            stroke(Key::Unicode('v'), Direction::Click),
            stroke(Key::Control, Direction::Release),
        ]
    );
}

#[test]
fn selection_script_is_release_read_wait_copy_wait_read() {
    assert_eq!(selection_actions(), expected_selection_actions());
}

#[test]
fn fallback_script_is_release_wait_select_all_wait_copy_wait_read() {
    assert_eq!(fallback_actions(), expected_fallback_actions());
}

#[test]
fn capture_begins_by_releasing_shift() {
    let capture = Capture::start();
    assert!(!capture.is_finished());
    assert_eq!(capture.captured(), None);
    assert_eq!(capture.pending(), Some(stroke(Key::Shift, Direction::Release)));
}

#[test]
fn selection_is_captured_after_one_copy() {
    let mut desk = Desk::new("foo", Some("Hello"), "Whole doc text");
    assert_eq!(desk.capture(), Some("Hello".to_string()));
    assert_eq!(desk.performed, expected_selection_actions());
    assert_eq!(desk.clicks_of('c'), 1);
    assert_eq!(desk.clicks_of('a'), 0);
    assert_eq!(desk.clipboard, "Hello");
}

#[test]
fn unchanged_clipboard_leads_to_select_all() {
    let mut desk = Desk::new("foo", None, "Whole doc text");
    assert_eq!(desk.capture(), Some("Whole doc text".to_string()));
    let mut expected = expected_selection_actions();
    expected.extend(expected_fallback_actions());
    assert_eq!(desk.performed, expected);
    assert_eq!(desk.clicks_of('a'), 1);
    assert_eq!(desk.clicks_of('c'), 2);
}

#[test]
fn selection_equal_to_the_clipboard_leads_to_select_all() {
    let mut desk = Desk::new("foo", Some("foo"), "Whole doc text");
    assert_eq!(desk.capture(), Some("Whole doc text".to_string()));
    assert_eq!(desk.clicks_of('a'), 1);
}

#[test]
fn empty_clipboard_after_the_copy_leads_to_select_all() {
    let mut desk = Desk::new("foo", Some(""), "Whole doc text");
    assert_eq!(desk.capture(), Some("Whole doc text".to_string()));
    assert_eq!(desk.clicks_of('a'), 1);
}

#[test]
fn empty_clipboard_before_and_after_the_copy_leads_to_select_all() {
    let mut desk = Desk::new("", None, "Whole doc text");
    assert_eq!(desk.capture(), Some("Whole doc text".to_string()));
    assert_eq!(desk.clicks_of('a'), 1);
}

#[test]
fn nothing_is_captured_when_both_attempts_leave_the_clipboard_empty() {
    let mut desk = Desk::new("", None, "");
    assert_eq!(desk.capture(), None);
    let mut expected = expected_selection_actions();
    expected.extend(expected_fallback_actions());
    assert_eq!(desk.performed, expected);
}

#[test]
fn second_attempt_takes_the_clipboard_even_where_it_did_not_change() {
    let mut desk = Desk::new("foo", None, "foo");
    assert_eq!(desk.capture(), Some("foo".to_string()));
    assert_eq!(desk.clicks_of('a'), 1);
}

#[test]
fn a_failed_key_event_ends_the_capture_at_once() {
    for place in [0usize, 1, 2, 5, 6, 7] {
        let mut desk = Desk::new("foo", Some("Hello"), "Whole doc text");
        desk.fail_at = Some(place);
        assert_eq!(desk.capture(), None, "failure at {}", place);
        assert_eq!(desk.performed.len(), place + 1, "failure at {}", place);
    }
}

#[test]
fn a_failed_wait_ends_the_capture_at_once() {
    for place in [4usize, 8] {
        let mut desk = Desk::new("foo", Some("Hello"), "Whole doc text");
        desk.fail_at = Some(place);
        assert_eq!(desk.capture(), None);
        assert_eq!(desk.performed.len(), place + 1);
    }
}

#[test]
fn a_failure_in_the_second_attempt_ends_the_capture_without_a_text() {
    for place in [10usize, 13, 15, 17, 19, 21] {
        let mut desk = Desk::new("foo", None, "Whole doc text");
        desk.fail_at = Some(place);
        assert_eq!(desk.capture(), None, "failure at {}", place);
        assert_eq!(desk.performed.len(), place + 1, "failure at {}", place);
    }
}

#[test]
fn a_clipboard_that_cannot_be_read_counts_as_empty() {
    // The reading before the copy fails: the copied text is new against "".
    let mut desk = Desk::new("foo", Some("Hello"), "Whole doc text");
    desk.fail_at = Some(3);
    assert_eq!(desk.capture(), Some("Hello".to_string()));
    assert_eq!(desk.clicks_of('a'), 0);

    // The reading after the copy fails: nothing seems selected.
    let mut desk = Desk::new("foo", Some("Hello"), "Whole doc text");
    desk.fail_at = Some(9);
    assert_eq!(desk.capture(), Some("Whole doc text".to_string()));
    assert_eq!(desk.clicks_of('a'), 1);

    // The last reading fails: nothing is captured.
    let mut desk = Desk::new("foo", None, "Whole doc text");
    desk.fail_at = Some(22);
    assert_eq!(desk.capture(), None);
}

#[test]
fn an_answer_of_the_wrong_kind_to_a_key_event_ends_the_capture() {
    let capture = Capture::start();
    let capture = capture.advance(Event::ClipboardText("Hello".to_string()));
    assert!(capture.is_finished());
    assert_eq!(capture.captured(), None);
    assert_eq!(capture.pending(), None);
}

#[test]
fn a_finished_capture_stays_finished() {
    let mut desk = Desk::new("foo", Some("Hello"), "");
    let mut capture = Capture::start();
    while let Some(action) = capture.pending() {
        let event = desk.perform(action);
        capture = capture.advance(event);
    }
    let capture = capture.advance(Event::Completed);
    assert!(capture.is_finished());
    assert_eq!(capture.pending(), None);
    assert_eq!(capture.captured(), Some("Hello".to_string()));
    let capture = capture.advance(Event::ClipboardText("other".to_string()));
    assert_eq!(capture.captured(), Some("Hello".to_string()));
}
