use translate_tool::config::Config;
use translate_tool::effect::{Action, Direction, Event, Key, KeyStroke, PASTE_MILLIS};
use translate_tool::pipeline::{paste_actions, Outcome, Pipeline};
use translate_tool::translate::{build_request, HttpRequest, HttpResponse};

/// A world in memory: a clipboard, an application that answers the copy,
/// select-all and paste chords, and a service that always gives one answer.
struct World {
    clipboard: String,
    selection: Option<String>,
    document: String,
    control_down: bool,
    answer: Option<HttpResponse>,
    fail_at: Option<usize>,
    performed: Vec<String>,
    requests: Vec<HttpRequest>,
    writes: Vec<String>,
    pasted: Vec<String>,
}

impl World {
    fn new(clipboard: &str, selection: Option<&str>, document: &str, answer: Option<&str>) -> World {
        World {
            clipboard: clipboard.to_string(),
            selection: selection.map(|text| text.to_string()),
            document: document.to_string(),
            control_down: false,
            answer: answer.map(|body| HttpResponse { status: 200, body: body.to_string() }),
            fail_at: None,
            performed: Vec::new(),
            requests: Vec::new(),
            writes: Vec::new(),
            pasted: Vec::new(),
        }
    }

    fn perform(&mut self, action: Action) -> Event {
        let place = self.performed.len();
        self.performed.push(format!("{:?}", action));
        if self.fail_at == Some(place) {
            return Event::Failed;
        }
        match action {
            Action::Stroke(KeyStroke { key: Key::Control, direction: Direction::Press }) => {
                self.control_down = true;
                Event::Completed
            }
            Action::Stroke(KeyStroke { key: Key::Control, direction: Direction::Release }) => {
                self.control_down = false;
                Event::Completed
            }
            Action::Stroke(KeyStroke { key: Key::Unicode(letter), direction: Direction::Click }) => {
                if self.control_down && letter == 'c' {
                    if let Some(selected) = &self.selection {
                        self.clipboard = selected.clone();
                    }
                } else if self.control_down && letter == 'a' {
                    self.selection = Some(self.document.clone());
                } else if self.control_down && letter == 'v' {
                    self.pasted.push(self.clipboard.clone());
                }
                Event::Completed
            }
            Action::Stroke(_) => Event::Completed,
            Action::Wait(_) => Event::Completed,
            Action::ReadClipboard => Event::ClipboardText(self.clipboard.clone()),
            Action::WriteClipboard(text) => {
                self.clipboard = text.clone();
                self.writes.push(text);
                Event::Completed
            }
            Action::Send(request) => {
                self.requests.push(request);
                match &self.answer {
                    Some(response) => Event::Response(response.clone()),
                    None => Event::Failed,
                }
            }
        }
    }

    fn run(&mut self, config: &Config) -> Outcome {
        let mut pipeline = Pipeline::start(config.clone());
        assert_eq!(pipeline.outcome(), None);
        while let Some(action) = pipeline.pending() {
            let event = self.perform(action);
            pipeline = pipeline.advance(event);
        }
        pipeline.outcome().unwrap()
    }
}

fn config() -> Config {
    Config {
        api_url: "http://host/v1".to_string(),
        api_key: "".to_string(),
        model: "latest-chat".to_string(),
        prompt: "Translate to English.".to_string(),
    }
}

const HELLO: &str = r#"{"choices":[{"message":{"content":"Hello"}}]}"#;

#[test]
fn paste_delay_is_fifty_milliseconds() {
    assert_eq!(PASTE_MILLIS, 50);
}

#[test]
fn paste_script_writes_waits_and_pastes() {
    assert_eq!(
        paste_actions("Hello"),
        vec![
            Action::WriteClipboard("Hello".to_string()),
            Action::Wait(50),
            Action::Stroke(KeyStroke { key: Key::Control, direction: Direction::Press }),
            Action::Stroke(KeyStroke { key: Key::Unicode('v'), direction: Direction::Click }),
            Action::Stroke(KeyStroke { key: Key::Control, direction: Direction::Release }),
        ]
    );
}

#[test]
fn captured_text_is_translated_and_pasted() {
    let mut world = World::new("foo", Some("Bonjour"), "", Some(HELLO));
    assert_eq!(world.run(&config()), Outcome::Pasted);
    assert_eq!(world.clipboard, "Hello");
    assert_eq!(world.writes, vec!["Hello".to_string()]);
    assert_eq!(world.pasted, vec!["Hello".to_string()]);
    assert_eq!(world.requests.len(), 1);
    assert_eq!(world.requests[0], build_request("Bonjour", &config()).unwrap());
    assert_eq!(
        world.requests[0].body["messages"][0]["content"].as_str(),
        Some("Translate to English.\n\nBonjour")
    );
}

#[test]
fn run_asks_for_capture_then_request_then_paste() {
    let mut world = World::new("foo", Some("Bonjour"), "", Some(HELLO));
    world.run(&config());
    assert_eq!(world.performed.len(), 10 + 1 + 5);
    assert!(world.performed[10].starts_with("Send("));
    assert_eq!(world.performed[11], "WriteClipboard(\"Hello\")");
    assert_eq!(world.performed[12], "Wait(50)");
    assert_eq!(
        world.performed[13],
        format!("{:?}", Action::Stroke(KeyStroke { key: Key::Control, direction: Direction::Press }))
    );
    assert_eq!(
        world.performed[14],
        format!(
            "{:?}",
            Action::Stroke(KeyStroke { key: Key::Unicode('v'), direction: Direction::Click })
        )
    );
    assert_eq!(
        world.performed[15],
        format!(
            "{:?}",
            Action::Stroke(KeyStroke { key: Key::Control, direction: Direction::Release })
        )
    );
}

#[test]
fn whole_document_is_translated_when_nothing_is_selected() {
    let mut world = World::new("foo", None, "Whole doc text", Some(HELLO));
    assert_eq!(world.run(&config()), Outcome::Pasted);
    assert_eq!(
        world.requests[0].body["messages"][0]["content"].as_str(),
        Some("Translate to English.\n\nWhole doc text")
    );
    assert_eq!(world.clipboard, "Hello");
}

#[test]
fn nothing_is_sent_or_written_when_nothing_is_captured() {
    let mut world = World::new("", None, "", Some(HELLO));
    assert_eq!(world.run(&config()), Outcome::NothingCaptured);
    assert!(world.requests.is_empty());
    assert!(world.writes.is_empty());
    assert!(world.pasted.is_empty());
    assert_eq!(world.clipboard, "");
    assert_eq!(world.performed.len(), 10 + 13);
}

#[test]
fn nothing_is_sent_when_the_capture_breaks_off() {
    let mut world = World::new("foo", Some("Bonjour"), "", Some(HELLO));
    world.fail_at = Some(6);
    assert_eq!(world.run(&config()), Outcome::NothingCaptured);
    assert!(world.requests.is_empty());
    assert!(world.writes.is_empty());
    assert_eq!(world.clipboard, "foo");
}

#[test]
fn nothing_is_written_when_the_request_fails() {
    let mut world = World::new("foo", Some("Bonjour"), "", None);
    assert_eq!(world.run(&config()), Outcome::TranslationFailed);
    assert_eq!(world.requests.len(), 1);
    assert!(world.writes.is_empty());
    assert!(world.pasted.is_empty());
    assert_eq!(world.clipboard, "Bonjour");
}

#[test]
fn nothing_is_written_when_the_reply_has_no_translation() {
    for body in [r#"{"choices":[]}"#, r#"{"error":"busy"}"#, "not json", ""] {
        let mut world = World::new("foo", Some("Bonjour"), "", Some(body));
        assert_eq!(world.run(&config()), Outcome::TranslationFailed, "body: {}", body);
        assert!(world.writes.is_empty());
        assert!(world.pasted.is_empty());
    }
}

#[test]
fn nothing_is_written_when_the_status_is_an_error() {
    let mut world = World::new("foo", Some("Bonjour"), "", Some(HELLO));
    world.answer = Some(HttpResponse { status: 500, body: HELLO.to_string() });
    assert_eq!(world.run(&config()), Outcome::TranslationFailed);
    assert!(world.writes.is_empty());
}

#[test]
fn an_empty_translation_is_not_pasted() {
    let mut world =
        World::new("foo", Some("Bonjour"), "", Some(r#"{"choices":[{"message":{"content":""}}]}"#));
    assert_eq!(world.run(&config()), Outcome::TranslationFailed);
    assert!(world.writes.is_empty());
    assert!(world.pasted.is_empty());
    assert_eq!(world.clipboard, "Bonjour");
}

#[test]
fn an_answer_of_the_wrong_kind_to_the_request_ends_the_run() {
    let mut pipeline = Pipeline::start(config());
    let mut world = World::new("foo", Some("Bonjour"), "", Some(HELLO));
    for _ in 0..10 {
        let action = pipeline.pending().unwrap();
        let event = world.perform(action);
        pipeline = pipeline.advance(event);
    }
    assert!(matches!(pipeline.pending(), Some(Action::Send(_))));
    let pipeline = pipeline.advance(Event::Completed);
    assert_eq!(pipeline.outcome(), Some(Outcome::TranslationFailed));
    assert_eq!(pipeline.pending(), None);
}

#[test]
fn a_failed_clipboard_write_ends_the_run_before_any_key_event() {
    let mut world = World::new("foo", Some("Bonjour"), "", Some(HELLO));
    world.fail_at = Some(11);
    assert_eq!(world.run(&config()), Outcome::PasteFailed);
    assert_eq!(world.performed.len(), 12);
    assert!(world.pasted.is_empty());
    assert_eq!(world.clipboard, "Bonjour");
}

#[test]
fn a_failed_paste_chord_leaves_the_translation_on_the_clipboard() {
    for place in [12usize, 13, 14, 15] {
        let mut world = World::new("foo", Some("Bonjour"), "", Some(HELLO));
        world.fail_at = Some(place);
        assert_eq!(world.run(&config()), Outcome::PasteFailed, "failure at {}", place);
        assert_eq!(world.performed.len(), place + 1, "failure at {}", place);
        assert_eq!(world.clipboard, "Hello");
        assert_eq!(world.writes, vec!["Hello".to_string()]);
    }
}

#[test]
fn two_runs_from_the_same_start_end_alike() {
    let mut first = World::new("foo", Some("Bonjour"), "doc", Some(HELLO));
    let mut second = World::new("foo", Some("Bonjour"), "doc", Some(HELLO));
    let shared = config();
    assert_eq!(first.run(&shared), Outcome::Pasted);
    assert_eq!(second.run(&shared), Outcome::Pasted);
    assert_eq!(first.clipboard, second.clipboard);
    assert_eq!(first.clipboard, "Hello");
    assert_eq!(first.performed, second.performed);
    assert_eq!(first.requests, second.requests);
}

#[test]
fn a_second_run_on_the_same_world_with_the_clipboard_restored_ends_alike() {
    let mut world = World::new("foo", Some("Bonjour"), "doc", Some(HELLO));
    let shared = config();
    assert_eq!(world.run(&shared), Outcome::Pasted);
    let after_first = world.clipboard.clone();
    let performed_first = world.performed.clone();
    world.clipboard = "foo".to_string();
    world.performed.clear();
    assert_eq!(world.run(&shared), Outcome::Pasted);
    assert_eq!(world.clipboard, after_first);
    assert_eq!(world.performed, performed_first);
    assert_eq!(world.requests.len(), 2);
    assert_eq!(world.requests[0], world.requests[1]);
}

#[test]
fn a_finished_run_stays_finished() {
    let mut world = World::new("", None, "", Some(HELLO));
    let mut pipeline = Pipeline::start(config());
    while let Some(action) = pipeline.pending() {
        let event = world.perform(action);
        pipeline = pipeline.advance(event);
    }
    let pipeline = pipeline.advance(Event::Completed);
    assert_eq!(pipeline.outcome(), Some(Outcome::NothingCaptured));
    assert_eq!(pipeline.pending(), None);
}
