//! One run from hotkey to paste: capture, translate, paste.
//!
//! [`Pipeline`] strings the three stages together as one state machine over
//! the actions of [`crate::effect`]. A stage that fails ends the run; nothing
//! is retried. The translation is first written to the clipboard and then
//! pasted, so that it stays on the clipboard where the paste fails.
//! [`PipelineModel`] is the same machine over mathematical values; the laws
//! at the end of this file are stated of it.

use crate::capture::{
    completions, fallback_events, fallback_script, law_capture_only_observes,
    law_fallback_runs_once, law_finished_capture_rests, law_selection_is_captured_by_one_copy,
    selection_events, selection_script, Capture, CaptureModel,
};
use crate::config::{Config, ConfigView};
use crate::effect::{
    chord_script, control_chord, sent, views, written, Action, ActionView, Event, EventView,
    PASTE_MILLIS,
};
use crate::translate::{build_request, read_response, request_for, translation_of};
use vstd::prelude::*;

verus! {

/// How a run ended.
#[derive(Clone, Copy, Debug, PartialEq, Eq)]
pub enum Outcome {
    /// No text was captured; nothing was sent and nothing was written.
    NothingCaptured,
    /// The service gave no translation; nothing was written.
    TranslationFailed,
    /// The translation could not be written to the clipboard, or the paste
    /// chord broke off.
    PasteFailed,
    /// The translation was written to the clipboard and pasted.
    Pasted,
}

/// The last stage: put the translation on the clipboard, wait for the change
/// to settle, and paste.
pub open spec fn paste_script(translation: Seq<char>) -> Seq<ActionView> {
    seq![ActionView::WriteClipboard(translation), ActionView::Wait(PASTE_MILLIS)] + chord_script(
        'v',
    )
}

/// A state of a run.
#[verifier::ext_equal]
pub enum PipelineModel {
    /// The text is being captured.
    Capturing { config: ConfigView, capture: CaptureModel },
    /// The request for `text` is with the service.
    Translating { config: ConfigView, text: Seq<char> },
    /// The translation is being pasted; `pc` is the place in the paste
    /// script of the action that is being carried out.
    Pasting { pc: int, translation: Seq<char> },
    /// The run has ended.
    Finished { outcome: Outcome },
}

/// Where a capture's step leaves the run.
pub open spec fn after_capture(config: ConfigView, capture: CaptureModel) -> PipelineModel {
    match capture {
        CaptureModel::Finished { captured: Some(text) } => PipelineModel::Translating {
            config,
            text,
        },
        CaptureModel::Finished { captured: None } => PipelineModel::Finished {
            outcome: Outcome::NothingCaptured,
        },
        _ => PipelineModel::Capturing { config, capture },
    }
}

/// Where the answer to the request leaves the run. Only a reply that carries
/// a translation which is not empty leads on to the paste.
pub open spec fn after_reply(event: EventView) -> PipelineModel {
    match event {
        EventView::Response(response) => match translation_of(response) {
            Some(translation) => if translation.len() > 0 {
                PipelineModel::Pasting { pc: 0, translation }
            } else {
                PipelineModel::Finished { outcome: Outcome::TranslationFailed }
            },
            None => PipelineModel::Finished { outcome: Outcome::TranslationFailed },
        },
        _ => PipelineModel::Finished { outcome: Outcome::TranslationFailed },
    }
}

impl PipelineModel {
    /// The state in which every run begins.
    pub open spec fn start(config: ConfigView) -> PipelineModel {
        PipelineModel::Capturing { config, capture: CaptureModel::start() }
    }

    /// The states that a run can be in: a capture that has not ended, a text
    /// to translate that is not empty, or a translation that is not empty at
    /// a place inside the paste script.
    pub open spec fn wf(self) -> bool {
        match self {
            PipelineModel::Capturing { capture, .. } => capture.wf() && !(capture is Finished),
            PipelineModel::Translating { text, .. } => text.len() > 0,
            PipelineModel::Pasting { pc, translation } => 0 <= pc < paste_script(
                translation,
            ).len() && translation.len() > 0,
            PipelineModel::Finished { .. } => true,
        }
    }

    /// The action to carry out in this state; `None` once the run has ended.
    pub open spec fn pending(self) -> Option<ActionView> {
        match self {
            PipelineModel::Capturing { capture, .. } => capture.pending(),
            PipelineModel::Translating { config, text } => Some(
                ActionView::Send(request_for(config, text)),
            ),
            PipelineModel::Pasting { pc, translation } => Some(paste_script(translation)[pc]),
            PipelineModel::Finished { .. } => None,
        }
    }

    /// How the run ended; `None` while it is under way.
    pub open spec fn outcome(self) -> Option<Outcome> {
        match self {
            PipelineModel::Finished { outcome } => Some(outcome),
            _ => None,
        }
    }

    /// The state that follows when the pending action is answered by `event`.
    pub open spec fn step(self, event: EventView) -> PipelineModel {
        match self {
            PipelineModel::Capturing { config, capture } => after_capture(
                config,
                capture.step(event),
            ),
            PipelineModel::Translating { .. } => after_reply(event),
            PipelineModel::Pasting { pc, translation } => {
                if event != EventView::Completed {
                    PipelineModel::Finished { outcome: Outcome::PasteFailed }
                } else if pc + 1 < paste_script(translation).len() {
                    PipelineModel::Pasting { pc: pc + 1, translation }
                } else {
                    PipelineModel::Finished { outcome: Outcome::Pasted }
                }
            },
            PipelineModel::Finished { outcome } => PipelineModel::Finished { outcome },
        }
    }

    /// The state reached from `self` when the pending actions are answered by
    /// `events`, one after the other.
    pub open spec fn run(self, events: Seq<EventView>) -> PipelineModel
        decreases events.len(),
    {
        if events.len() == 0 {
            self
        } else {
            self.run(events.drop_last()).step(events.last())
        }
    }

    /// The actions that were carried out to obtain `events`: the pending
    /// action of each state that an event was fed to.
    pub open spec fn issued(self, events: Seq<EventView>) -> Seq<ActionView>
        decreases events.len(),
    {
        if events.len() == 0 {
            Seq::empty()
        } else {
            let before = self.issued(events.drop_last());
            match self.run(events.drop_last()).pending() {
                Some(action) => before.push(action),
                None => before,
            }
        }
    }

    /// The text on the clipboard after `events`, as far as the run can tell:
    /// what it last read from the clipboard or wrote to it, and `before`
    /// where it did neither.
    pub open spec fn clipboard(self, events: Seq<EventView>, before: Seq<char>) -> Seq<char>
        decreases events.len(),
    {
        if events.len() == 0 {
            before
        } else {
            let earlier = self.clipboard(events.drop_last(), before);
            match (self.run(events.drop_last()).pending(), events.last()) {
                (Some(ActionView::ReadClipboard), EventView::ClipboardText(text)) => text,
                (Some(ActionView::WriteClipboard(text)), EventView::Completed) => text,
                _ => earlier,
            }
        }
    }
}

/// The actions of the last stage.
pub fn paste_actions(translation: &str) -> (actions: Vec<Action>)
    ensures
        views(actions@) == paste_script(translation@),
{
    let mut actions: Vec<Action> = Vec::new();
    actions.push(Action::WriteClipboard(translation.to_string()));
    actions.push(Action::Wait(PASTE_MILLIS));
    let mut paste = control_chord('v');
    actions.append(&mut paste);
    assert(views(actions@) =~= paste_script(translation@));
    actions
}

/// Where a run stands.
#[derive(Debug)]
enum Stage {
    Capturing { capture: Capture },
    Translating { text: String },
    Pasting { pc: usize, translation: String },
    Finished { outcome: Outcome },
}

/// A run in progress.
#[derive(Debug)]
pub struct Pipeline {
    config: Config,
    stage: Stage,
}

impl View for Pipeline {
    type V = PipelineModel;

    closed spec fn view(&self) -> PipelineModel {
        match self.stage {
            Stage::Capturing { capture } => PipelineModel::Capturing {
                config: self.config@,
                capture: capture@,
            },
            Stage::Translating { text } => PipelineModel::Translating {
                config: self.config@,
                text: text@,
            },
            Stage::Pasting { pc, translation } => PipelineModel::Pasting {
                pc: pc as int,
                translation: translation@,
            },
            Stage::Finished { outcome } => PipelineModel::Finished { outcome },
        }
    }
}

impl Pipeline {
    #[verifier::type_invariant]
    spec fn inv(self) -> bool {
        self@.wf()
    }

    /// Begins a run under `config`.
    pub fn start(config: Config) -> (pipeline: Pipeline)
        ensures
            pipeline@ == PipelineModel::start(config@),
    {
        Pipeline { config, stage: Stage::Capturing { capture: Capture::start() } }
    }

    /// The action to carry out now; `None` once the run has ended.
    pub fn pending(&self) -> (action: Option<Action>)
        ensures
            self@.wf(),
            match action {
                Some(next) => self@.pending() == Some(next@),
                None => self@.pending() is None,
            },
    {
        proof {
            use_type_invariant(self);
        }
        match &self.stage {
            Stage::Capturing { capture } => capture.pending(),
            Stage::Translating { text } => {
                match build_request(text.as_str(), &self.config) {
                    Some(request) => Some(Action::Send(request)),
                    None => None,
                }
            },
            Stage::Pasting { pc, translation } => {
                let mut script = paste_actions(translation.as_str());
                Some(script.remove(*pc))
            },
            Stage::Finished { .. } => None,
        }
    }

    /// How the run ended; `None` while it is under way.
    pub fn outcome(&self) -> (outcome: Option<Outcome>)
        ensures
            outcome == self@.outcome(),
    {
        match &self.stage {
            Stage::Finished { outcome } => Some(*outcome),
            _ => None,
        }
    }

    /// Takes the answer to the pending action and moves on.
    pub fn advance(self, event: Event) -> (next: Pipeline)
        ensures
            next@ == self@.step(event@),
            next@.wf(),
    {
        proof {
            use_type_invariant(&self);
        }
        let config = self.config;
        match self.stage {
            Stage::Capturing { capture } => {
                let moved = capture.advance(event);
                if moved.is_finished() {
                    match moved.captured() {
                        Some(text) => Pipeline { config, stage: Stage::Translating { text } },
                        None => Pipeline {
                            config,
                            stage: Stage::Finished { outcome: Outcome::NothingCaptured },
                        },
                    }
                } else {
                    Pipeline { config, stage: Stage::Capturing { capture: moved } }
                }
            },
            Stage::Translating { .. } => {
                let translation = match event {
                    Event::Response(response) => read_response(&response),
                    _ => None,
                };
                match translation {
                    Some(text) => {
                        if text.as_str().is_empty() {
                            Pipeline {
                                config,
                                stage: Stage::Finished { outcome: Outcome::TranslationFailed },
                            }
                        } else {
                            Pipeline {
                                config,
                                stage: Stage::Pasting { pc: 0, translation: text },
                            }
                        }
                    },
                    None => Pipeline {
                        config,
                        stage: Stage::Finished { outcome: Outcome::TranslationFailed },
                    },
                }
            },
            Stage::Pasting { pc, translation } => {
                let script = paste_actions(translation.as_str());
                assert(views(script@).len() == script@.len());
                let completed = match event {
                    Event::Completed => true,
                    _ => false,
                };
                if !completed {
                    Pipeline { config, stage: Stage::Finished { outcome: Outcome::PasteFailed } }
                } else if pc + 1 < script.len() {
                    Pipeline { config, stage: Stage::Pasting { pc: pc + 1, translation } }
                } else {
                    Pipeline { config, stage: Stage::Finished { outcome: Outcome::Pasted } }
                }
            },
            Stage::Finished { outcome } => Pipeline { config, stage: Stage::Finished { outcome } },
        }
    }
}

/// Feeding one more event: the run goes one step further, the action that
/// the event answers joins those issued, and the clipboard follows.
pub proof fn lemma_run_one_more(
    state: PipelineModel,
    events: Seq<EventView>,
    count: int,
    before: Seq<char>,
)
    requires
        0 < count <= events.len(),
    ensures
        state.run(events.take(count)) == state.run(events.take(count - 1)).step(
            events[count - 1],
        ),
        state.issued(events.take(count)) == match state.run(events.take(count - 1)).pending() {
            Some(action) => state.issued(events.take(count - 1)).push(action),
            None => state.issued(events.take(count - 1)),
        },
        state.clipboard(events.take(count), before) == match (
            state.run(events.take(count - 1)).pending(),
            events[count - 1],
        ) {
            (Some(ActionView::ReadClipboard), EventView::ClipboardText(text)) => text,
            (Some(ActionView::WriteClipboard(text)), EventView::Completed) => text,
            _ => state.clipboard(events.take(count - 1), before),
        },
{
    assert(events.take(count).drop_last() =~= events.take(count - 1));
}

/// A run over a single event is one step.
pub proof fn lemma_run_single(state: PipelineModel, event: EventView, before: Seq<char>)
    ensures
        state.run(seq![event]) == state.step(event),
        state.issued(seq![event]) == match state.pending() {
            Some(action) => seq![action],
            None => Seq::empty(),
        },
        state.clipboard(seq![event], before) == match (state.pending(), event) {
            (Some(ActionView::ReadClipboard), EventView::ClipboardText(text)) => text,
            (Some(ActionView::WriteClipboard(text)), EventView::Completed) => text,
            _ => before,
        },
{
    let events = seq![event];
    lemma_run_one_more(state, events, 1, before);
    assert(events.take(1) =~= events);
    assert(state.run(events.take(0)) == state);
    assert(state.issued(events.take(0)) =~= Seq::<ActionView>::empty());
    assert(state.clipboard(events.take(0), before) == before);
    match state.pending() {
        Some(action) => {
            assert(Seq::<ActionView>::empty().push(action) =~= seq![action]);
        },
        None => {},
    }
}

/// A run over two stretches of events is the run over the first, carried on
/// over the second.
pub proof fn lemma_run_add(
    state: PipelineModel,
    first: Seq<EventView>,
    second: Seq<EventView>,
    before: Seq<char>,
)
    ensures
        state.run(first + second) == state.run(first).run(second),
        state.issued(first + second) == state.issued(first) + state.run(first).issued(second),
        state.clipboard(first + second, before) == state.run(first).clipboard(
            second,
            state.clipboard(first, before),
        ),
    decreases second.len(),
{
    if second.len() == 0 {
        assert(first + second =~= first);
        assert(state.issued(first) + state.run(first).issued(second) =~= state.issued(first));
    } else {
        assert((first + second).drop_last() =~= first + second.drop_last());
        lemma_run_add(state, first, second.drop_last(), before);
        let earlier = state.run(first).issued(second.drop_last());
        match state.run(first + second.drop_last()).pending() {
            Some(action) => {
                assert((state.issued(first) + earlier).push(action) =~= state.issued(first)
                    + earlier.push(action));
            },
            None => {},
        }
    }
}

/// A capture that has not ended after some events had not ended after fewer.
proof fn lemma_capture_was_running(capture: CaptureModel, events: Seq<EventView>, count: int)
    requires
        !(capture.run(events) is Finished),
        0 <= count <= events.len(),
    ensures
        !(capture.run(events.take(count)) is Finished),
{
    assert(events =~= events.take(count) + events.skip(count));
    crate::capture::lemma_run_add(capture, events.take(count), events.skip(count));
    if capture.run(events.take(count)) is Finished {
        law_finished_capture_rests(capture.run(events.take(count)), events.skip(count));
    }
}

/// While the capture runs, the run is the capture: it is in the state that
/// the capture's state stands for and has issued what the capture has
/// issued.
proof fn lemma_run_follows_capture(
    config: ConfigView,
    capture: CaptureModel,
    events: Seq<EventView>,
)
    requires
        !(capture is Finished),
        events.len() > 0 ==> !(capture.run(events.drop_last()) is Finished),
    ensures
        (PipelineModel::Capturing { config, capture }).run(events) == after_capture(
            config,
            capture.run(events),
        ),
        (PipelineModel::Capturing { config, capture }).issued(events) == capture.issued(events),
    decreases events.len(),
{
    if events.len() > 0 {
        let earlier = events.drop_last();
        if earlier.len() > 0 {
            lemma_capture_was_running(capture, earlier, earlier.len() - 1);
            assert(earlier.take(earlier.len() - 1) =~= earlier.drop_last());
        }
        lemma_run_follows_capture(config, capture, earlier);
    }
}

/// Every step leads from a state that a run can be in to another such state,
/// and so does every run.
pub proof fn law_pipeline_stays_well_formed(state: PipelineModel, events: Seq<EventView>)
    requires
        state.wf(),
    ensures
        state.run(events).wf(),
    decreases events.len(),
{
    if events.len() > 0 {
        law_pipeline_stays_well_formed(state, events.drop_last());
        let before = state.run(events.drop_last());
        match before {
            PipelineModel::Capturing { capture, .. } => {
                crate::capture::law_capture_stays_well_formed(capture, seq![events.last()]);
                assert(seq![events.last()].drop_last() =~= Seq::<EventView>::empty());
            },
            _ => {},
        }
    }
}

/// A run that has ended stays as it is and asks for nothing more.
pub proof fn law_finished_pipeline_rests(state: PipelineModel, events: Seq<EventView>)
    requires
        state is Finished,
    ensures
        state.pending() is None,
        state.run(events) == state,
        state.issued(events) == Seq::<ActionView>::empty(),
    decreases events.len(),
{
    if events.len() > 0 {
        law_finished_pipeline_rests(state, events.drop_last());
    }
}

/// A request is only ever sent for a captured text that is not empty, and it
/// is the request that the configuration and that text call for.
pub proof fn law_only_captured_text_is_sent(
    state: PipelineModel,
    request: crate::translate::HttpRequestView,
)
    requires
        state.wf(),
        state.pending() == Some(ActionView::Send(request)),
    ensures
        state matches PipelineModel::Translating { config, text } && text.len() > 0 && request
            == request_for(config, text),
{
    match state {
        PipelineModel::Capturing { capture, .. } => {
            law_capture_only_observes(capture, ActionView::Send(request));
        },
        _ => {},
    }
}

/// The clipboard is only ever written with a translation that is not empty,
/// and only as the first action of the paste.
pub proof fn law_only_translation_is_written(state: PipelineModel, text: Seq<char>)
    requires
        state.wf(),
        state.pending() == Some(ActionView::WriteClipboard(text)),
    ensures
        state == (PipelineModel::Pasting { pc: 0, translation: text }),
        text.len() > 0,
{
    match state {
        PipelineModel::Capturing { capture, .. } => {
            law_capture_only_observes(capture, ActionView::WriteClipboard(text));
        },
        _ => {},
    }
}

/// The paste begins only on a reply that carries a translation which is not
/// empty; every other answer to the request ends the run.
pub proof fn law_paste_needs_translation(state: PipelineModel, event: EventView)
    requires
        state is Translating,
    ensures
        match state.step(event) {
            PipelineModel::Pasting { pc, translation } => {
                &&& pc == 0
                &&& translation.len() > 0
                &&& event matches EventView::Response(response) && translation_of(response)
                    == Some(translation)
            },
            next => next == (PipelineModel::Finished { outcome: Outcome::TranslationFailed }),
        },
{
}

/// Where the paste breaks off, the run ends and undoes nothing: once the
/// translation is on the clipboard, no later action writes the clipboard.
pub proof fn law_failed_paste_keeps_clipboard(
    state: PipelineModel,
    event: EventView,
    action: ActionView,
)
    requires
        state.wf(),
        state matches PipelineModel::Pasting { pc, .. } && pc > 0,
        state.pending() == Some(action),
    ensures
        !(action is WriteClipboard),
        event != EventView::Completed ==> state.step(event) == (PipelineModel::Finished {
            outcome: Outcome::PasteFailed,
        }),
{
}

/// Nothing captured, nothing sent.
///
/// Let every key event and wait succeed, let the first copy leave the
/// clipboard empty or as it was, and let the clipboard be empty after the
/// second attempt. The run then ends with `NothingCaptured`. It has carried
/// out the two attempts' scripts and nothing else: no request was sent and
/// the clipboard was never written.
pub proof fn law_nothing_captured_nothing_sent(
    config: ConfigView,
    original: Seq<char>,
    candidate: Seq<char>,
)
    requires
        candidate.len() == 0 || candidate == original,
    ensures
        ({
            let events = selection_events(original, candidate) + fallback_events(Seq::empty());
            let run = PipelineModel::start(config);
            &&& run.run(events) == (PipelineModel::Finished { outcome: Outcome::NothingCaptured })
            &&& run.issued(events) == selection_script() + fallback_script()
            &&& forall|i: int|
                0 <= i < run.issued(events).len() ==> !(#[trigger] run.issued(events)[i] is Send)
                    && !(run.issued(events)[i] is WriteClipboard)
        }),
{
    let events = selection_events(original, candidate) + fallback_events(Seq::empty());
    let capture = CaptureModel::start();
    law_fallback_runs_once(original, candidate, Seq::empty());
    assert(events.len() == 23);
    assert(events.drop_last() =~= selection_events(original, candidate) + fallback_events(
        Seq::empty(),
    ).take(12));
    crate::capture::lemma_run_add(
        capture,
        selection_events(original, candidate),
        fallback_events(Seq::empty()).take(12),
    );
    crate::capture::lemma_fallback_run(Seq::empty());
    lemma_run_follows_capture(config, capture, events);
    lemma_scripts_only_observe();
}

/// Neither attempt's script sends a request or writes the clipboard.
proof fn lemma_scripts_only_observe()
    ensures
        forall|i: int|
            0 <= i < selection_script().len() ==> !(#[trigger] selection_script()[i] is Send) && !(
            selection_script()[i] is WriteClipboard),
        forall|i: int|
            0 <= i < fallback_script().len() ==> !(#[trigger] fallback_script()[i] is Send) && !(
            fallback_script()[i] is WriteClipboard),
{
}

/// The paste, answered without a failure, runs its whole script and leaves
/// the translation on the clipboard.
proof fn lemma_paste_run(translation: Seq<char>, before: Seq<char>)
    ensures
        (PipelineModel::Pasting { pc: 0, translation }).run(completions(5)) == (
        PipelineModel::Finished { outcome: Outcome::Pasted }),
        (PipelineModel::Pasting { pc: 0, translation }).issued(completions(5)) == paste_script(
            translation,
        ),
        (PipelineModel::Pasting { pc: 0, translation }).clipboard(completions(5), before)
            == translation,
{
    let start = PipelineModel::Pasting { pc: 0, translation };
    let events = completions(5);
    let script = paste_script(translation);
    assert(script.len() == 5);
    assert(start.run(events.take(0)) == start);
    assert(start.issued(events.take(0)) =~= script.take(0));
    lemma_run_one_more(start, events, 1, before);
    assert(start.issued(events.take(1)) =~= script.take(1));
    lemma_run_one_more(start, events, 2, before);
    assert(start.issued(events.take(2)) =~= script.take(2));
    lemma_run_one_more(start, events, 3, before);
    assert(start.issued(events.take(3)) =~= script.take(3));
    lemma_run_one_more(start, events, 4, before);
    assert(start.issued(events.take(4)) =~= script.take(4));
    lemma_run_one_more(start, events, 5, before);
    assert(start.issued(events.take(5)) =~= script);
    assert(events.take(5) =~= events);
}

/// A captured selection is translated and pasted.
///
/// Let every key event and wait succeed, let the copy put the new,
/// non-empty text `candidate` on the clipboard, and let the reply carry the
/// non-empty translation. The run then ends with `Pasted`. It has carried
/// out the first attempt's script, sent the request that the configuration
/// calls for on `candidate`, and run the paste script: the translation was
/// written to the clipboard before the paste chord, and is what the
/// clipboard holds at the end.
pub proof fn law_translation_is_pasted(
    config: ConfigView,
    original: Seq<char>,
    candidate: Seq<char>,
    response: crate::translate::HttpResponseView,
    translation: Seq<char>,
    before: Seq<char>,
)
    requires
        candidate.len() > 0,
        candidate != original,
        translation_of(response) == Some(translation),
        translation.len() > 0,
    ensures
        ({
            let events = selection_events(original, candidate) + seq![
                EventView::Response(response),
            ] + completions(5);
            let run = PipelineModel::start(config);
            &&& run.run(events) == (PipelineModel::Finished { outcome: Outcome::Pasted })
            &&& run.issued(events) == selection_script() + seq![
                ActionView::Send(request_for(config, candidate)),
            ] + paste_script(translation)
            &&& run.clipboard(events, before) == translation
        }),
{
    let capturing = selection_events(original, candidate);
    let reply = seq![EventView::Response(response)];
    let run = PipelineModel::start(config);
    let capture = CaptureModel::start();
    law_selection_is_captured_by_one_copy(original, candidate);
    crate::capture::lemma_selection_run(original, candidate);
    assert(capturing.drop_last() =~= capturing.take(9));
    lemma_run_follows_capture(config, capture, capturing);
    let translating = PipelineModel::Translating { config, text: candidate };
    assert(run.run(capturing) == translating);
    lemma_run_single(translating, EventView::Response(response), run.clipboard(capturing, before));
    lemma_run_add(run, capturing, reply, before);
    lemma_paste_run(translation, run.clipboard(capturing + reply, before));
    lemma_run_add(run, capturing + reply, completions(5), before);
}

/// A run without a reply leaves the clipboard as the copy left it.
///
/// Let every key event and wait succeed and let the copy put the new,
/// non-empty text `candidate` on the clipboard. Where the request is then
/// answered by anything that leads to no paste (a failure, a reply without a
/// translation, an empty translation), the run ends with
/// `TranslationFailed`, has written nothing, and the clipboard holds
/// `candidate`.
pub proof fn law_failed_translation_writes_nothing(
    config: ConfigView,
    original: Seq<char>,
    candidate: Seq<char>,
    answer: EventView,
    before: Seq<char>,
)
    requires
        candidate.len() > 0,
        candidate != original,
        !(after_reply(answer) is Pasting),
    ensures
        ({
            let events = selection_events(original, candidate) + seq![answer];
            let run = PipelineModel::start(config);
            &&& run.run(events) == (PipelineModel::Finished {
                outcome: Outcome::TranslationFailed,
            })
            &&& run.issued(events) == selection_script() + seq![
                ActionView::Send(request_for(config, candidate)),
            ]
            &&& run.clipboard(events, before) == candidate
        }),
{
    let capturing = selection_events(original, candidate);
    let reply = seq![answer];
    let run = PipelineModel::start(config);
    let capture = CaptureModel::start();
    law_selection_is_captured_by_one_copy(original, candidate);
    crate::capture::lemma_selection_run(original, candidate);
    assert(capturing.drop_last() =~= capturing.take(9));
    lemma_run_follows_capture(config, capture, capturing);
    let translating = PipelineModel::Translating { config, text: candidate };
    assert(run.run(capturing) == translating);
    lemma_run_single(translating, answer, run.clipboard(capturing, before));
    lemma_run_add(run, capturing, reply, before);
    lemma_run_follows_capture(config, capture, capturing.drop_last());
    assert(capturing.last() == EventView::ClipboardText(candidate));
}

/// A run keeps nothing from the runs before it.
///
/// The state a run is in, the actions it has asked for and the text it
/// leaves on the clipboard are determined by the configuration, by the
/// clipboard's text at the start and by the events it was answered with: two
/// runs that agree in these agree in all of those, however often and in
/// whatever order they are made.
pub proof fn law_runs_are_repeatable(
    first_config: ConfigView,
    second_config: ConfigView,
    first_events: Seq<EventView>,
    second_events: Seq<EventView>,
    first_before: Seq<char>,
    second_before: Seq<char>,
)
    requires
        first_config.api_url =~= second_config.api_url,
        first_config.api_key =~= second_config.api_key,
        first_config.model =~= second_config.model,
        first_config.prompt =~= second_config.prompt,
        first_events =~= second_events,
        first_before =~= second_before,
    ensures
        PipelineModel::start(first_config).run(first_events) == PipelineModel::start(
            second_config,
        ).run(second_events),
        PipelineModel::start(first_config).issued(first_events) == PipelineModel::start(
            second_config,
        ).issued(second_events),
        PipelineModel::start(first_config).clipboard(first_events, first_before)
            == PipelineModel::start(second_config).clipboard(second_events, second_before),
{
}

/// How many requests a run may have sent and how often it may have written
/// the clipboard, by the state it is in.
pub open spec fn tally_fits(state: PipelineModel, requests: nat, writes: nat) -> bool {
    match state {
        PipelineModel::Capturing { .. } => requests == 0 && writes == 0,
        PipelineModel::Translating { .. } => requests == 0 && writes == 0,
        PipelineModel::Pasting { pc, .. } => requests == 1 && writes == if pc > 0 {
            1nat
        } else {
            0nat
        },
        PipelineModel::Finished { outcome: Outcome::NothingCaptured } => requests == 0 && writes
            == 0,
        PipelineModel::Finished { outcome: Outcome::TranslationFailed } => requests == 1 && writes
            == 0,
        PipelineModel::Finished { outcome: Outcome::PasteFailed } => requests == 1 && writes == 1,
        PipelineModel::Finished { outcome: Outcome::Pasted } => requests == 1 && writes == 1,
    }
}

/// A run sends and writes as its state says, whatever the events.
///
/// From its start to any state, a run has sent no request while it captures
/// and when nothing was captured, and one request in every other state; it
/// has not written the clipboard before the paste, nor where the translation
/// failed, and has written it once from the paste's second action on.
pub proof fn law_run_sends_and_writes_by_state(config: ConfigView, events: Seq<EventView>)
    ensures
        PipelineModel::start(config).run(events).wf(),
        tally_fits(
            PipelineModel::start(config).run(events),
            sent(PipelineModel::start(config).issued(events)),
            written(PipelineModel::start(config).issued(events)),
        ),
    decreases events.len(),
{
    let start = PipelineModel::start(config);
    if events.len() > 0 {
        let earlier = events.drop_last();
        law_run_sends_and_writes_by_state(config, earlier);
        let state = start.run(earlier);
        match state {
            PipelineModel::Capturing { capture, .. } => {
                law_capture_only_observes(capture, capture.pending().unwrap());
                crate::capture::law_capture_stays_well_formed(capture, seq![events.last()]);
                assert(seq![events.last()].drop_last() =~= Seq::<EventView>::empty());
            },
            _ => {},
        }
        match state.pending() {
            Some(action) => {
                assert(start.issued(earlier).push(action).drop_last() =~= start.issued(earlier));
            },
            None => {},
        }
    }
}

/// Nothing is retried: in every run, whatever the events, at most one request
/// is sent and the clipboard is written at most once.
pub proof fn law_nothing_is_retried(config: ConfigView, events: Seq<EventView>)
    ensures
        sent(PipelineModel::start(config).issued(events)) <= 1,
        written(PipelineModel::start(config).issued(events)) <= 1,
{
    law_run_sends_and_writes_by_state(config, events);
}

/// A run that ends without a captured text has sent no request and has not
/// written the clipboard, whatever the events; a run that ends without a
/// translation has not written the clipboard.
pub proof fn law_no_text_no_request(config: ConfigView, events: Seq<EventView>)
    ensures
        PipelineModel::start(config).run(events).outcome() == Some(Outcome::NothingCaptured)
            ==> sent(PipelineModel::start(config).issued(events)) == 0 && written(
            PipelineModel::start(config).issued(events),
        ) == 0,
        PipelineModel::start(config).run(events).outcome() == Some(Outcome::TranslationFailed)
            ==> written(PipelineModel::start(config).issued(events)) == 0,
{
    law_run_sends_and_writes_by_state(config, events);
}

} // verus!
