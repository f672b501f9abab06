//! Finding the text that the user means, with the clipboard as the only
//! witness.
//!
//! No application tells what is selected. The policy copies, and compares the
//! clipboard after the copy with the clipboard before it. A new, non-empty
//! text is the selection. Anything else is taken to mean that nothing was
//! selected: the policy then selects everything, copies again, and takes
//! whatever text the clipboard holds.
//!
//! [`Capture`] is that policy as a state machine. It names the action to
//! carry out next ([`Capture::pending`]) and moves on when told what came of
//! it ([`Capture::advance`]). [`CaptureModel`] is the same machine over
//! mathematical values; the laws at the end of this file are stated of it.

use crate::effect::{
    chord_script, control_chord, occurrences, release_modifiers, release_script, stroke, views,
    Action, ActionView, Direction, Event, EventView, Key, CHORD_MILLIS, SETTLE_MILLIS,
};
use vstd::prelude::*;

verus! {

/// The first attempt: let go of the modifiers, remember the clipboard, wait,
/// copy, wait, and read the clipboard again.
pub open spec fn selection_script() -> Seq<ActionView> {
    release_script() + seq![ActionView::ReadClipboard, ActionView::Wait(SETTLE_MILLIS)]
        + chord_script('c') + seq![ActionView::Wait(CHORD_MILLIS), ActionView::ReadClipboard]
}

/// The second attempt: let go of the modifiers, wait, select everything,
/// wait, copy, wait, and read the clipboard.
pub open spec fn fallback_script() -> Seq<ActionView> {
    release_script() + seq![ActionView::Wait(SETTLE_MILLIS)] + chord_script('a')
        + seq![ActionView::Wait(CHORD_MILLIS)] + chord_script('c') + seq![
        ActionView::Wait(CHORD_MILLIS),
        ActionView::ReadClipboard,
    ]
}

/// The key event that copies.
pub open spec fn copy_click() -> ActionView {
    stroke(Key::Unicode('c'), Direction::Click)
}

/// The key event that selects everything.
pub open spec fn select_all_click() -> ActionView {
    stroke(Key::Unicode('a'), Direction::Click)
}

/// A state of the capture policy.
///
/// `pc` is the place in the attempt's script of the action that is being
/// carried out.
#[verifier::ext_equal]
pub enum CaptureModel {
    /// The first attempt is under way. `original` is what the clipboard held
    /// before the copy, once that is known.
    Selection { pc: int, original: Seq<char> },
    /// The second attempt is under way.
    Fallback { pc: int },
    /// The policy has ended, with the captured text or without one.
    Finished { captured: Option<Seq<char>> },
}

impl CaptureModel {
    /// The state in which every capture begins.
    pub open spec fn start() -> CaptureModel {
        CaptureModel::Selection { pc: 0, original: Seq::empty() }
    }

    /// The states that a capture can be in: the place lies inside the script,
    /// and a captured text is not empty.
    pub open spec fn wf(self) -> bool {
        match self {
            CaptureModel::Selection { pc, .. } => 0 <= pc < selection_script().len(),
            CaptureModel::Fallback { pc } => 0 <= pc < fallback_script().len(),
            CaptureModel::Finished { captured } => captured matches Some(text) ==> text.len() > 0,
        }
    }

    /// The action to carry out in this state; `None` once the policy has
    /// ended.
    pub open spec fn pending(self) -> Option<ActionView> {
        match self {
            CaptureModel::Selection { pc, .. } => Some(selection_script()[pc]),
            CaptureModel::Fallback { pc } => Some(fallback_script()[pc]),
            CaptureModel::Finished { .. } => None,
        }
    }

    /// The text that was captured; `None` while the policy runs and where it
    /// ended without a text.
    pub open spec fn captured(self) -> Option<Seq<char>> {
        match self {
            CaptureModel::Finished { captured } => captured,
            _ => None,
        }
    }

    /// The state that follows when the pending action is answered by `event`.
    ///
    /// A reading of the clipboard always goes on: what is not a clipboard
    /// text counts as the empty text. Every other action must be answered by
    /// `Completed`; any other answer ends the policy without a text.
    pub open spec fn step(self, event: EventView) -> CaptureModel {
        match self {
            CaptureModel::Selection { pc, original } => {
                if selection_script()[pc] == ActionView::ReadClipboard {
                    let text = event.clipboard_text();
                    if pc + 1 < selection_script().len() {
                        CaptureModel::Selection { pc: pc + 1, original: text }
                    } else if text.len() > 0 && text != original {
                        CaptureModel::Finished { captured: Some(text) }
                    } else {
                        CaptureModel::Fallback { pc: 0 }
                    }
                } else if event == EventView::Completed && pc + 1 < selection_script().len() {
                    CaptureModel::Selection { pc: pc + 1, original }
                } else {
                    CaptureModel::Finished { captured: None }
                }
            },
            CaptureModel::Fallback { pc } => {
                if fallback_script()[pc] == ActionView::ReadClipboard {
                    let text = event.clipboard_text();
                    if text.len() > 0 {
                        CaptureModel::Finished { captured: Some(text) }
                    } else {
                        CaptureModel::Finished { captured: None }
                    }
                } else if event == EventView::Completed && pc + 1 < fallback_script().len() {
                    CaptureModel::Fallback { pc: pc + 1 }
                } else {
                    CaptureModel::Finished { captured: None }
                }
            },
            CaptureModel::Finished { captured } => CaptureModel::Finished { captured },
        }
    }

    /// The state reached from `self` when the pending actions are answered by
    /// `events`, one after the other.
    pub open spec fn run(self, events: Seq<EventView>) -> CaptureModel
        decreases events.len(),
    {
        if events.len() == 0 {
            self
        } else {
            self.run(events.drop_last()).step(events.last())
        }
    }

    /// The actions that were carried out to obtain `events`: the pending
    /// action of each state that an event was fed to.
    pub open spec fn issued(self, events: Seq<EventView>) -> Seq<ActionView>
        decreases events.len(),
    {
        if events.len() == 0 {
            Seq::empty()
        } else {
            let before = self.issued(events.drop_last());
            match self.run(events.drop_last()).pending() {
                Some(action) => before.push(action),
                None => before,
            }
        }
    }
}

/// `count` events that report that an action was carried out.
pub open spec fn completions(count: nat) -> Seq<EventView> {
    Seq::new(count, |i: int| EventView::Completed)
}

/// The answers to the first attempt when every key event and wait succeeds
/// and the clipboard holds `original` before the copy and `candidate` after
/// it.
pub open spec fn selection_events(original: Seq<char>, candidate: Seq<char>) -> Seq<EventView> {
    completions(3) + seq![EventView::ClipboardText(original)] + completions(5) + seq![
        EventView::ClipboardText(candidate),
    ]
}

/// The answers to the second attempt when every key event and wait succeeds
/// and the clipboard holds `content` at the end.
pub open spec fn fallback_events(content: Seq<char>) -> Seq<EventView> {
    completions(12) + seq![EventView::ClipboardText(content)]
}

/// The actions of the first attempt.
pub fn selection_actions() -> (actions: Vec<Action>)
    ensures
        views(actions@) == selection_script(),
{
    let mut actions = release_modifiers();
    actions.push(Action::ReadClipboard);
    actions.push(Action::Wait(SETTLE_MILLIS));
    let mut copy = control_chord('c');
    actions.append(&mut copy);
    actions.push(Action::Wait(CHORD_MILLIS));
    actions.push(Action::ReadClipboard);
    assert(views(actions@) =~= selection_script());
    actions
}

/// The actions of the second attempt.
pub fn fallback_actions() -> (actions: Vec<Action>)
    ensures
        views(actions@) == fallback_script(),
{
    let mut actions = release_modifiers();
    actions.push(Action::Wait(SETTLE_MILLIS));
    let mut select_all = control_chord('a');
    actions.append(&mut select_all);
    actions.push(Action::Wait(CHORD_MILLIS));
    let mut copy = control_chord('c');
    actions.append(&mut copy);
    actions.push(Action::Wait(CHORD_MILLIS));
    actions.push(Action::ReadClipboard);
    assert(views(actions@) =~= fallback_script());
    actions
}

/// Where a capture stands.
#[derive(Debug)]
enum Stage {
    Selection { pc: usize, original: String },
    Fallback { pc: usize },
    Finished { captured: Option<String> },
}

/// A capture in progress.
#[derive(Debug)]
pub struct Capture {
    stage: Stage,
}

impl View for Capture {
    type V = CaptureModel;

    closed spec fn view(&self) -> CaptureModel {
        match self.stage {
            Stage::Selection { pc, original } => CaptureModel::Selection {
                pc: pc as int,
                original: original@,
            },
            Stage::Fallback { pc } => CaptureModel::Fallback { pc: pc as int },
            Stage::Finished { captured } => CaptureModel::Finished {
                captured: captured.deep_view(),
            },
        }
    }
}

/// The text that an event reports of the clipboard.
fn clipboard_text(event: Event) -> (text: String)
    ensures
        text@ == event@.clipboard_text(),
{
    match event {
        Event::ClipboardText(text) => text,
        _ => String::new(),
    }
}

/// Whether an event reports that an action was carried out.
fn is_completed(event: &Event) -> (completed: bool)
    ensures
        completed == (event@ == EventView::Completed),
{
    match event {
        Event::Completed => true,
        _ => false,
    }
}

/// Whether an action is a reading of the clipboard.
fn is_read(action: &Action) -> (read: bool)
    ensures
        read == (action@ == ActionView::ReadClipboard),
{
    match action {
        Action::ReadClipboard => true,
        _ => false,
    }
}

impl Capture {
    #[verifier::type_invariant]
    spec fn inv(self) -> bool {
        self@.wf()
    }

    /// Begins a capture.
    pub fn start() -> (capture: Capture)
        ensures
            capture@ == CaptureModel::start(),
    {
        Capture { stage: Stage::Selection { pc: 0, original: String::new() } }
    }

    /// The action to carry out now; `None` once the capture has ended.
    pub fn pending(&self) -> (action: Option<Action>)
        ensures
            self@.wf(),
            match action {
                Some(next) => self@.pending() == Some(next@),
                None => self@.pending() is None,
            },
    {
        proof {
            use_type_invariant(self);
        }
        match &self.stage {
            Stage::Selection { pc, .. } => {
                let mut script = selection_actions();
                Some(script.remove(*pc))
            },
            Stage::Fallback { pc } => {
                let mut script = fallback_actions();
                Some(script.remove(*pc))
            },
            Stage::Finished { .. } => None,
        }
    }

    /// Whether the capture has ended.
    pub fn is_finished(&self) -> (finished: bool)
        ensures
            finished == (self@ is Finished),
    {
        match &self.stage {
            Stage::Finished { .. } => true,
            _ => false,
        }
    }

    /// The captured text; `None` while the capture runs and where it ended
    /// without a text.
    pub fn captured(&self) -> (text: Option<String>)
        ensures
            text.deep_view() == self@.captured(),
            text matches Some(characters) ==> characters@.len() > 0,
    {
        proof {
            use_type_invariant(self);
        }
        match &self.stage {
            Stage::Finished { captured: Some(text) } => Some(text.clone()),
            _ => None,
        }
    }

    /// Takes the answer to the pending action and moves on.
    pub fn advance(self, event: Event) -> (next: Capture)
        ensures
            next@ == self@.step(event@),
            next@.wf(),
    {
        proof {
            use_type_invariant(&self);
        }
        match self.stage {
            Stage::Selection { pc, original } => {
                let script = selection_actions();
                assert(views(script@).len() == script@.len());
                let last = pc + 1 >= script.len();
                if is_read(&script[pc]) {
                    let text = clipboard_text(event);
                    if !last {
                        Capture { stage: Stage::Selection { pc: pc + 1, original: text } }
                    } else if !text.as_str().is_empty() && !(text == original) {
                        Capture { stage: Stage::Finished { captured: Some(text) } }
                    } else {
                        Capture { stage: Stage::Fallback { pc: 0 } }
                    }
                } else if is_completed(&event) && !last {
                    Capture { stage: Stage::Selection { pc: pc + 1, original } }
                } else {
                    Capture { stage: Stage::Finished { captured: None } }
                }
            },
            Stage::Fallback { pc } => {
                let script = fallback_actions();
                assert(views(script@).len() == script@.len());
                let last = pc + 1 >= script.len();
                if is_read(&script[pc]) {
                    let text = clipboard_text(event);
                    if !text.as_str().is_empty() {
                        Capture { stage: Stage::Finished { captured: Some(text) } }
                    } else {
                        Capture { stage: Stage::Finished { captured: None } }
                    }
                } else if is_completed(&event) && !last {
                    Capture { stage: Stage::Fallback { pc: pc + 1 } }
                } else {
                    Capture { stage: Stage::Finished { captured: None } }
                }
            },
            Stage::Finished { captured } => Capture { stage: Stage::Finished { captured } },
        }
    }
}

/// Feeding one more event: the run goes one step further, and the action
/// that the event answers joins those issued.
pub proof fn lemma_run_one_more(state: CaptureModel, events: Seq<EventView>, count: int)
    requires
        0 < count <= events.len(),
    ensures
        state.run(events.take(count)) == state.run(events.take(count - 1)).step(
            events[count - 1],
        ),
        state.issued(events.take(count)) == match state.run(events.take(count - 1)).pending() {
            Some(action) => state.issued(events.take(count - 1)).push(action),
            None => state.issued(events.take(count - 1)),
        },
{
    assert(events.take(count).drop_last() =~= events.take(count - 1));
}

/// Counting over two sequences laid end to end adds up.
pub proof fn lemma_occurrences_add(
    first: Seq<ActionView>,
    second: Seq<ActionView>,
    wanted: ActionView,
)
    ensures
        occurrences(first + second, wanted) == occurrences(first, wanted) + occurrences(
            second,
            wanted,
        ),
    decreases second.len(),
{
    if second.len() == 0 {
        assert(first + second =~= first);
    } else {
        assert((first + second).drop_last() =~= first + second.drop_last());
        lemma_occurrences_add(first, second.drop_last(), wanted);
    }
}

/// The first attempt copies once and never selects everything.
pub proof fn lemma_selection_script_counts()
    ensures
        selection_script().len() == 10,
        occurrences(selection_script(), copy_click()) == 1,
        occurrences(selection_script(), select_all_click()) == 0,
{
    let head = release_script() + seq![ActionView::ReadClipboard, ActionView::Wait(SETTLE_MILLIS)];
    let tail = seq![ActionView::Wait(CHORD_MILLIS), ActionView::ReadClipboard];
    reveal_with_fuel(occurrences, 4);
    lemma_occurrences_add(
        release_script(),
        seq![ActionView::ReadClipboard, ActionView::Wait(SETTLE_MILLIS)],
        copy_click(),
    );
    lemma_occurrences_add(head, chord_script('c'), copy_click());
    lemma_occurrences_add(head + chord_script('c'), tail, copy_click());
    lemma_occurrences_add(
        release_script(),
        seq![ActionView::ReadClipboard, ActionView::Wait(SETTLE_MILLIS)],
        select_all_click(),
    );
    lemma_occurrences_add(head, chord_script('c'), select_all_click());
    lemma_occurrences_add(head + chord_script('c'), tail, select_all_click());
}

/// The second attempt selects everything once and copies once.
pub proof fn lemma_fallback_script_counts()
    ensures
        fallback_script().len() == 13,
        occurrences(fallback_script(), copy_click()) == 1,
        occurrences(fallback_script(), select_all_click()) == 1,
{
    let a = release_script();
    let b = seq![ActionView::Wait(SETTLE_MILLIS)];
    let c = chord_script('a');
    let d = seq![ActionView::Wait(CHORD_MILLIS)];
    let e = chord_script('c');
    let f = seq![ActionView::Wait(CHORD_MILLIS), ActionView::ReadClipboard];
    reveal_with_fuel(occurrences, 4);
    lemma_occurrences_add(a, b, copy_click());
    lemma_occurrences_add(a + b, c, copy_click());
    lemma_occurrences_add(a + b + c, d, copy_click());
    lemma_occurrences_add(a + b + c + d, e, copy_click());
    lemma_occurrences_add(a + b + c + d + e, f, copy_click());
    lemma_occurrences_add(a, b, select_all_click());
    lemma_occurrences_add(a + b, c, select_all_click());
    lemma_occurrences_add(a + b + c, d, select_all_click());
    lemma_occurrences_add(a + b + c + d, e, select_all_click());
    lemma_occurrences_add(a + b + c + d + e, f, select_all_click());
}

/// The first attempt, answered without a failure, reaches its last reading
/// having issued its whole script but for that reading's answer.
pub proof fn lemma_selection_run(original: Seq<char>, candidate: Seq<char>)
    ensures
        CaptureModel::start().run(selection_events(original, candidate).take(9)) == (
        CaptureModel::Selection { pc: 9, original }),
        CaptureModel::start().issued(selection_events(original, candidate).take(9))
            == selection_script().take(9),
{
    let start = CaptureModel::start();
    let events = selection_events(original, candidate);
    let script = selection_script();
    assert(events.len() == 10);
    assert(script.len() == 10);
    assert(start.run(events.take(0)) == start);
    assert(start.issued(events.take(0)) =~= script.take(0));
    lemma_run_one_more(start, events, 1);
    assert(start.issued(events.take(1)) =~= script.take(1));
    lemma_run_one_more(start, events, 2);
    assert(start.issued(events.take(2)) =~= script.take(2));
    lemma_run_one_more(start, events, 3);
    assert(start.issued(events.take(3)) =~= script.take(3));
    lemma_run_one_more(start, events, 4);
    assert(start.run(events.take(4)) == (CaptureModel::Selection { pc: 4, original }));
    assert(start.issued(events.take(4)) =~= script.take(4));
    lemma_run_one_more(start, events, 5);
    assert(start.issued(events.take(5)) =~= script.take(5));
    lemma_run_one_more(start, events, 6);
    assert(start.issued(events.take(6)) =~= script.take(6));
    lemma_run_one_more(start, events, 7);
    assert(start.issued(events.take(7)) =~= script.take(7));
    lemma_run_one_more(start, events, 8);
    assert(start.issued(events.take(8)) =~= script.take(8));
    lemma_run_one_more(start, events, 9);
    assert(start.issued(events.take(9)) =~= script.take(9));
}

/// A selection is captured by one copy.
///
/// Let every key event and wait succeed, and let the clipboard hold
/// `original` before the copy and `candidate` after it. If `candidate` is
/// not empty and differs from `original`, the capture ends with `candidate`
/// at the end of the first attempt: what was carried out is the first
/// attempt's script, which copies once and never selects everything.
pub proof fn law_selection_is_captured_by_one_copy(original: Seq<char>, candidate: Seq<char>)
    requires
        candidate.len() > 0,
        candidate != original,
    ensures
        CaptureModel::start().run(selection_events(original, candidate)) == (
        CaptureModel::Finished { captured: Some(candidate) }),
        CaptureModel::start().issued(selection_events(original, candidate)) == selection_script(),
        occurrences(selection_script(), copy_click()) == 1,
        occurrences(selection_script(), select_all_click()) == 0,
{
    let start = CaptureModel::start();
    let events = selection_events(original, candidate);
    lemma_selection_script_counts();
    lemma_selection_run(original, candidate);
    lemma_run_one_more(start, events, 10);
    assert(events.take(10) =~= events);
    assert(start.issued(events) =~= selection_script());
}

/// The second attempt, answered without a failure, reaches its reading
/// having issued its whole script but for that reading's answer.
pub proof fn lemma_fallback_run(content: Seq<char>)
    ensures
        (CaptureModel::Fallback { pc: 0 }).run(fallback_events(content).take(12)) == (
        CaptureModel::Fallback { pc: 12 }),
        (CaptureModel::Fallback { pc: 0 }).issued(fallback_events(content).take(12))
            == fallback_script().take(12),
{
    let start = CaptureModel::Fallback { pc: 0 };
    let events = fallback_events(content);
    let script = fallback_script();
    assert(events.len() == 13);
    assert(script.len() == 13);
    assert(start.run(events.take(0)) == start);
    assert(start.issued(events.take(0)) =~= script.take(0));
    lemma_run_one_more(start, events, 1);
    assert(start.issued(events.take(1)) =~= script.take(1));
    lemma_run_one_more(start, events, 2);
    assert(start.issued(events.take(2)) =~= script.take(2));
    lemma_run_one_more(start, events, 3);
    assert(start.issued(events.take(3)) =~= script.take(3));
    lemma_run_one_more(start, events, 4);
    assert(start.issued(events.take(4)) =~= script.take(4));
    lemma_run_one_more(start, events, 5);
    assert(start.issued(events.take(5)) =~= script.take(5));
    lemma_run_one_more(start, events, 6);
    assert(start.issued(events.take(6)) =~= script.take(6));
    lemma_run_one_more(start, events, 7);
    assert(start.issued(events.take(7)) =~= script.take(7));
    lemma_run_one_more(start, events, 8);
    assert(start.issued(events.take(8)) =~= script.take(8));
    lemma_run_one_more(start, events, 9);
    assert(start.issued(events.take(9)) =~= script.take(9));
    lemma_run_one_more(start, events, 10);
    assert(start.issued(events.take(10)) =~= script.take(10));
    lemma_run_one_more(start, events, 11);
    assert(start.issued(events.take(11)) =~= script.take(11));
    lemma_run_one_more(start, events, 12);
    assert(start.issued(events.take(12)) =~= script.take(12));
}

/// A run over two stretches of events is the run over the first, carried on
/// over the second.
pub proof fn lemma_run_add(state: CaptureModel, first: Seq<EventView>, second: Seq<EventView>)
    ensures
        state.run(first + second) == state.run(first).run(second),
        state.issued(first + second) == state.issued(first) + state.run(first).issued(second),
    decreases second.len(),
{
    if second.len() == 0 {
        assert(first + second =~= first);
        assert(state.issued(first) + state.run(first).issued(second) =~= state.issued(first));
    } else {
        assert((first + second).drop_last() =~= first + second.drop_last());
        lemma_run_add(state, first, second.drop_last());
        let before = state.run(first).issued(second.drop_last());
        match state.run(first + second.drop_last()).pending() {
            Some(action) => {
                assert((state.issued(first) + before).push(action) =~= state.issued(first)
                    + before.push(action));
            },
            None => {},
        }
    }
}

/// Without a selection, everything is selected once.
///
/// Let every key event and wait succeed, and let the clipboard hold
/// `original` before the first copy, `candidate` after it, and `content` at
/// the end. If `candidate` is empty or equal to `original`, the first attempt
/// ends without a result and the second begins; the capture ends after the
/// second attempt, with `content` unless that is empty. What was carried out
/// is the first attempt's script and then the second's, in which everything
/// is selected exactly once.
pub proof fn law_fallback_runs_once(
    original: Seq<char>,
    candidate: Seq<char>,
    content: Seq<char>,
)
    requires
        candidate.len() == 0 || candidate == original,
    ensures
        CaptureModel::start().run(selection_events(original, candidate)) == (
        CaptureModel::Fallback { pc: 0 }),
        CaptureModel::start().run(selection_events(original, candidate) + fallback_events(content))
            == (CaptureModel::Finished {
            captured: if content.len() > 0 {
                Some(content)
            } else {
                None
            },
        }),
        CaptureModel::start().issued(
            selection_events(original, candidate) + fallback_events(content),
        ) == selection_script() + fallback_script(),
        occurrences(selection_script() + fallback_script(), select_all_click()) == 1,
{
    let start = CaptureModel::start();
    let first = selection_events(original, candidate);
    let second = fallback_events(content);
    let middle = CaptureModel::Fallback { pc: 0 };
    lemma_selection_script_counts();
    lemma_fallback_script_counts();
    lemma_occurrences_add(selection_script(), fallback_script(), select_all_click());
    lemma_selection_run(original, candidate);
    lemma_run_one_more(start, first, 10);
    assert(first.take(10) =~= first);
    assert(start.issued(first) =~= selection_script());
    lemma_fallback_run(content);
    lemma_run_one_more(middle, second, 13);
    assert(second.take(13) =~= second);
    assert(middle.issued(second) =~= fallback_script());
    lemma_run_add(start, first, second);
}

/// Every step leads from a state that a capture can be in to another such
/// state, and so does every run.
pub proof fn law_capture_stays_well_formed(state: CaptureModel, events: Seq<EventView>)
    requires
        state.wf(),
    ensures
        state.run(events).wf(),
    decreases events.len(),
{
    if events.len() > 0 {
        law_capture_stays_well_formed(state, events.drop_last());
        lemma_selection_script_counts();
        lemma_fallback_script_counts();
    }
}

/// A capture never ends with an empty text, and the first attempt never ends
/// with the text that the clipboard held before the copy.
pub proof fn law_captured_text_is_new(state: CaptureModel, event: EventView, text: Seq<char>)
    requires
        state.wf(),
        state.step(event).captured() == Some(text),
    ensures
        text.len() > 0,
        state matches CaptureModel::Selection { original, .. } ==> text != original,
{
}

/// Where a key event or a wait is answered by anything but `Completed`, the
/// capture ends at once, without a text.
pub proof fn law_failure_ends_capture(state: CaptureModel, action: ActionView, event: EventView)
    requires
        state.pending() == Some(action),
        action != ActionView::ReadClipboard,
        event != EventView::Completed,
    ensures
        state.step(event) == (CaptureModel::Finished { captured: None }),
{
}

/// A capture that has ended stays as it is and asks for nothing more.
pub proof fn law_finished_capture_rests(state: CaptureModel, events: Seq<EventView>)
    requires
        state is Finished,
    ensures
        state.pending() is None,
        state.run(events) == state,
        state.issued(events) == Seq::<ActionView>::empty(),
    decreases events.len(),
{
    if events.len() > 0 {
        law_finished_capture_rests(state, events.drop_last());
    }
}

/// A capture only types, waits and reads: it never writes the clipboard and
/// never sends a request.
pub proof fn law_capture_only_observes(state: CaptureModel, action: ActionView)
    requires
        state.wf(),
        state.pending() == Some(action),
    ensures
        action is Stroke || action is Wait || action is ReadClipboard,
{
    lemma_selection_script_counts();
    lemma_fallback_script_counts();
}

/// The answer to the reading after the copy decides between the two
/// attempts, whatever went before: a text that is not empty and differs from
/// `original` is the capture's result; any other answer begins the second
/// attempt.
pub proof fn law_reading_after_copy_decides(original: Seq<char>, event: EventView)
    ensures
        ({
            let deciding = CaptureModel::Selection {
                pc: selection_script().len() - 1,
                original,
            };
            let text = event.clipboard_text();
            &&& deciding.pending() == Some(ActionView::ReadClipboard)
            &&& deciding.step(event) == if text.len() > 0 && text != original {
                CaptureModel::Finished { captured: Some(text) }
            } else {
                CaptureModel::Fallback { pc: 0 }
            }
        }),
{
    lemma_selection_script_counts();
}

/// Where everything is selected in the scripts: nowhere in the first
/// attempt's, at one place in the second's.
proof fn lemma_select_all_places()
    ensures
        selection_script().len() == 10,
        fallback_script().len() == 13,
        forall|i: int|
            0 <= i < 10 ==> #[trigger] selection_script()[i] != select_all_click(),
        forall|i: int|
            0 <= i < 13 ==> (#[trigger] fallback_script()[i] == select_all_click() <==> i == 5),
{
}

/// Counting over a sequence with one more action at its end.
pub proof fn lemma_occurrences_push(
    actions: Seq<ActionView>,
    action: ActionView,
    wanted: ActionView,
)
    ensures
        occurrences(actions.push(action), wanted) == occurrences(actions, wanted) + if action
            == wanted {
            1nat
        } else {
            0nat
        },
{
    assert(actions.push(action).drop_last() =~= actions);
}

/// How often everything has been selected, by the state that a capture has
/// reached from its start.
proof fn lemma_select_all_by_state(events: Seq<EventView>)
    ensures
        CaptureModel::start().run(events).wf(),
        match CaptureModel::start().run(events) {
            CaptureModel::Selection { .. } => occurrences(
                CaptureModel::start().issued(events),
                select_all_click(),
            ) == 0,
            CaptureModel::Fallback { pc } => occurrences(
                CaptureModel::start().issued(events),
                select_all_click(),
            ) == if pc > 5 {
                1nat
            } else {
                0nat
            },
            CaptureModel::Finished { .. } => occurrences(
                CaptureModel::start().issued(events),
                select_all_click(),
            ) <= 1,
        },
    decreases events.len(),
{
    let start = CaptureModel::start();
    lemma_select_all_places();
    if events.len() > 0 {
        let earlier = events.drop_last();
        lemma_select_all_by_state(earlier);
        match start.run(earlier).pending() {
            Some(action) => {
                lemma_occurrences_push(start.issued(earlier), action, select_all_click());
            },
            None => {},
        }
    }
}

/// In every capture, whatever the events, everything is selected at most
/// once, and not at all while the first attempt is under way.
pub proof fn law_select_all_at_most_once(events: Seq<EventView>)
    ensures
        occurrences(CaptureModel::start().issued(events), select_all_click()) <= 1,
        CaptureModel::start().run(events) is Selection ==> occurrences(
            CaptureModel::start().issued(events),
            select_all_click(),
        ) == 0,
{
    lemma_select_all_by_state(events);
}

} // verus!
