//! The life of one export, as a state machine. The machine decides; whoever
//! runs it does the outside work that each step asks for and reports what
//! came of it: it measures the countdown, launches the encoder, reads the
//! encoder's standard output line by line.
//!
//! A line that is not of the form `key=value` ends the export with an error.
//! When the encoder closes its output without having reported the end, the
//! export counts as complete if the encoder exited cleanly, as failed if not.

use vstd::prelude::*;
use crate::command::{clip_duration_command, probe_args, CommandLine, CommandLineView};
use crate::error::{message_text, ExportError, ExportErrorView};
use crate::export::{export_args, Export, ExportView};
use crate::progress::{classify, parse_line, Progress, ProgressView, Report};

verus! {

/// Where an export stands.
#[derive(Clone, Debug, PartialEq, Eq)]
pub enum State {
    /// Nothing has run yet; the duration of the countdown is being measured.
    Ready(Export),
    /// The encoder is being launched.
    Launching,
    /// The encoder runs and its output is being read.
    Exporting,
    /// The export is over. No event leads out of this state.
    Finished,
}

/// What happened outside since the last step.
#[derive(Clone, Debug, PartialEq, Eq)]
pub enum Event {
    /// The countdown was measured: it lasts this many whole seconds.
    Probed(u32),
    /// The countdown could not be measured; the text says why.
    ProbeFailed(String),
    /// The encoder runs.
    Launched,
    /// The encoder could not be launched; the text says why.
    LaunchFailed(String),
    /// The encoder printed this line.
    Line(String),
    /// The encoder closed its output; `clean` says whether it exited with
    /// success.
    Closed { clean: bool },
    /// Reading the encoder's output failed.
    ReadFailed,
}

/// The outside work that a step asks for.
#[derive(Clone, Debug, PartialEq, Eq)]
pub enum Action {
    /// Run this command and report the number it prints.
    Probe(CommandLine),
    /// Launch this command with its standard output captured.
    Launch(CommandLine),
    /// Read the next line of the encoder's output.
    Read,
    /// Nothing is left to do. After `Done` an encoder that still runs is
    /// left to finish and waited for; after an error it is stopped and
    /// waited for.
    Stop,
}

/// The outcome of a step: the new state, the event to hand to the consumer,
/// if any, and what to do next.
#[derive(Clone, Debug, PartialEq, Eq)]
pub struct Step {
    pub state: State,
    pub progress: Option<Progress>,
    pub action: Action,
}

/// Mathematical value of a [`State`].
pub enum StateView {
    Ready(ExportView),
    Launching,
    Exporting,
    Finished,
}

/// Mathematical value of an [`Event`].
pub enum EventView {
    Probed(u32),
    ProbeFailed(Seq<char>),
    Launched,
    LaunchFailed(Seq<char>),
    Line(Seq<char>),
    Closed { clean: bool },
    ReadFailed,
}

/// Mathematical value of an [`Action`].
pub enum ActionView {
    Probe(CommandLineView),
    Launch(CommandLineView),
    Read,
    Stop,
}

/// Mathematical value of a [`Step`].
pub struct StepView {
    pub state: StateView,
    pub progress: Option<ProgressView>,
    pub action: ActionView,
}

impl View for State {
    type V = StateView;

    open spec fn view(&self) -> StateView {
        match self {
            State::Ready(export) => StateView::Ready(export@),
            State::Launching => StateView::Launching,
            State::Exporting => StateView::Exporting,
            State::Finished => StateView::Finished,
        }
    }
}

impl View for Event {
    type V = EventView;

    open spec fn view(&self) -> EventView {
        match self {
            Event::Probed(seconds) => EventView::Probed(*seconds),
            Event::ProbeFailed(why) => EventView::ProbeFailed(why@),
            Event::Launched => EventView::Launched,
            Event::LaunchFailed(why) => EventView::LaunchFailed(why@),
            Event::Line(text) => EventView::Line(text@),
            Event::Closed { clean } => EventView::Closed { clean: *clean },
            Event::ReadFailed => EventView::ReadFailed,
        }
    }
}

impl View for Action {
    type V = ActionView;

    open spec fn view(&self) -> ActionView {
        match self {
            Action::Probe(command) => ActionView::Probe(command@),
            Action::Launch(command) => ActionView::Launch(command@),
            Action::Read => ActionView::Read,
            Action::Stop => ActionView::Stop,
        }
    }
}

/// The value of an event handed to the consumer, if there is one.
pub open spec fn progress_view(progress: Option<Progress>) -> Option<ProgressView> {
    match progress {
        Some(p) => Some(p@),
        None => None,
    }
}

impl View for Step {
    type V = StepView;

    open spec fn view(&self) -> StepView {
        StepView {
            state: self.state@,
            progress: progress_view(self.progress),
            action: self.action@,
        }
    }
}

/// The step that ends an export with an error message.
pub open spec fn failed(why: Seq<char>) -> StepView {
    StepView {
        state: StateView::Finished,
        progress: Some(ProgressView::Error(why)),
        action: ActionView::Stop,
    }
}

/// The step that ends an export with the error `e`.
pub open spec fn failed_with(e: ExportErrorView) -> StepView {
    failed(message_text(e))
}

/// A step that keeps reading, with or without an event for the consumer.
pub open spec fn reading(progress: Option<ProgressView>) -> StepView {
    StepView { state: StateView::Exporting, progress, action: ActionView::Read }
}

/// The first state of an export and the first thing to do: measure the
/// countdown.
pub open spec fn first_step(export: ExportView) -> StepView {
    StepView {
        state: StateView::Ready(export),
        progress: None,
        action: ActionView::Probe(
            CommandLineView { program: "ffprobe"@, args: probe_args(export.countdown) },
        ),
    }
}

/// What the machine does in `state` when `event` comes in.
pub open spec fn transition(state: StateView, event: EventView) -> StepView {
    match state {
        StateView::Finished => StepView {
            state: StateView::Finished,
            progress: None,
            action: ActionView::Stop,
        },
        StateView::Ready(export) => match event {
            EventView::Probed(seconds) => if seconds > export.duration {
                failed_with(ExportErrorView::InvalidDuration)
            } else {
                StepView {
                    state: StateView::Launching,
                    progress: None,
                    action: ActionView::Launch(
                        CommandLineView {
                            program: "ffmpeg"@,
                            args: export_args(export, seconds),
                        },
                    ),
                }
            },
            EventView::ProbeFailed(why) => failed_with(ExportErrorView::ProbeFailed(why)),
            _ => failed("unexpected event"@),
        },
        StateView::Launching => match event {
            EventView::Launched => reading(Some(ProgressView::Started)),
            EventView::LaunchFailed(why) => failed_with(ExportErrorView::SpawnFailed(why)),
            _ => failed("unexpected event"@),
        },
        StateView::Exporting => match event {
            EventView::Line(text) => match classify(text) {
                Report::Frame(count) => reading(Some(ProgressView::Frame(count))),
                Report::Ignored => reading(None),
                Report::End => StepView {
                    state: StateView::Finished,
                    progress: Some(ProgressView::Done),
                    action: ActionView::Stop,
                },
                Report::Malformed => failed_with(ExportErrorView::StreamFormatError),
            },
            EventView::Closed { clean } => if clean {
                StepView {
                    state: StateView::Finished,
                    progress: Some(ProgressView::Done),
                    action: ActionView::Stop,
                }
            } else {
                failed_with(ExportErrorView::EncoderExitedWithError)
            },
            EventView::ReadFailed => failed("Unexpected error occured"@),
            _ => failed("unexpected event"@),
        },
    }
}

/// The events handed to the consumer while the machine, from `state` on,
/// takes `events` one by one.
pub open spec fn trace(state: StateView, events: Seq<EventView>) -> Seq<ProgressView>
    decreases events.len(),
{
    if events.len() == 0 {
        Seq::empty()
    } else {
        let step = transition(state, events.first());
        let rest = trace(step.state, events.drop_first());
        match step.progress {
            Some(p) => seq![p] + rest,
            None => rest,
        }
    }
}

/// The values of a sequence of events from outside.
pub open spec fn event_views(events: Seq<Event>) -> Seq<EventView> {
    events.map_values(|e: Event| e@)
}

/// The values of a sequence of events for the consumer.
pub open spec fn progress_views(events: Seq<Progress>) -> Seq<ProgressView> {
    events.map_values(|p: Progress| p@)
}

/// Whether an event is the last one of an export.
pub open spec fn is_terminal(p: ProgressView) -> bool {
    p is Done || p is Error
}

/// The step that ends an export with an error message.
fn fail(why: String) -> (step: Step)
    ensures
        step@ == failed(why@),
{
    Step { state: State::Finished, progress: Some(Progress::Error(why)), action: Action::Stop }
}

/// The step that ends an export with the error `e`.
fn fail_with(e: ExportError) -> (step: Step)
    ensures
        step@ == failed_with(e@),
{
    fail(e.message())
}

/// A step that keeps reading.
fn keep_reading(progress: Option<Progress>) -> (step: Step)
    ensures
        step@ == reading(progress_view(progress)),
{
    Step { state: State::Exporting, progress, action: Action::Read }
}

/// The step that ends an export with success.
fn finish() -> (step: Step)
    ensures
        step@ == (StepView {
            state: StateView::Finished,
            progress: Some(ProgressView::Done),
            action: ActionView::Stop,
        }),
{
    Step { state: State::Finished, progress: Some(Progress::Done), action: Action::Stop }
}

/// Begins an export: nothing has run yet, and the countdown is to be
/// measured.
pub fn begin(export: Export) -> (step: Step)
    ensures
        step@ == first_step(export@),
{
    let probe = clip_duration_command(export.countdown.as_str());
    Step { state: State::Ready(export), progress: None, action: Action::Probe(probe) }
}

/// Takes one event in. The encoder is launched only after a countdown was
/// measured that is no longer than the time given to each clip.
pub fn step(state: State, event: &Event) -> (next: Step)
    ensures
        next@ == transition(state@, event@),
{
    match state {
        State::Finished => Step { state: State::Finished, progress: None, action: Action::Stop },
        State::Ready(export) => match event {
            Event::Probed(seconds) => match export.command(*seconds) {
                Ok(command) => Step {
                    state: State::Launching,
                    progress: None,
                    action: Action::Launch(command),
                },
                Err(e) => fail_with(e),
            },
            Event::ProbeFailed(why) => fail_with(ExportError::ProbeFailed(why.clone())),
            _ => fail(String::from_str("unexpected event")),
        },
        State::Launching => match event {
            Event::Launched => keep_reading(Some(Progress::Started)),
            Event::LaunchFailed(why) => fail_with(ExportError::SpawnFailed(why.clone())),
            _ => fail(String::from_str("unexpected event")),
        },
        State::Exporting => match event {
            Event::Line(text) => match parse_line(text.as_str()) {
                Report::Frame(count) => keep_reading(Some(Progress::Frame(count))),
                Report::Ignored => keep_reading(None),
                Report::End => finish(),
                Report::Malformed => fail_with(ExportError::StreamFormatError),
            },
            Event::Closed { clean } => if *clean {
                finish()
            } else {
                fail_with(ExportError::EncoderExitedWithError)
            },
            Event::ReadFailed => fail(String::from_str("Unexpected error occured")),
            _ => fail(String::from_str("unexpected event")),
        },
    }
}

/// Runs an export against a record of what happened outside, and returns
/// the events handed to the consumer, in order.
pub fn run(export: Export, events: &Vec<Event>) -> (seen: Vec<Progress>)
    ensures
        progress_views(seen@) == trace(StateView::Ready(export@), event_views(events@)),
{
    let ghost all = event_views(events@);
    let ghost start = StateView::Ready(export@);
    let mut state = State::Ready(export);
    let mut seen: Vec<Progress> = Vec::new();
    let mut i: usize = 0;
    assert(all.skip(0) =~= all);
    assert(progress_views(seen@) =~= Seq::empty());
    while i < events.len()
        invariant
            i <= events.len(),
            all == event_views(events@),
            progress_views(seen@) + trace(state@, all.skip(i as int)) == trace(start, all),
        decreases events.len() - i,
    {
        let ghost before = progress_views(seen@);
        let ghost rest = all.skip(i as int);
        let next = step(state, &events[i]);
        proof {
            assert(rest.first() == events@[i as int]@);
            assert(rest.drop_first() =~= all.skip(i + 1));
        }
        state = next.state;
        match next.progress {
            Some(p) => {
                seen.push(p);
                assert(progress_views(seen@) =~= before + seq![p@]);
                assert(progress_views(seen@) + trace(state@, all.skip(i + 1)) =~= before + (seq![
                    p@,
                ] + trace(state@, all.skip(i + 1))));
            },
            None => {},
        }
        i += 1;
    }
    assert(all.skip(i as int) =~= Seq::<EventView>::empty());
    assert(progress_views(seen@) + Seq::<ProgressView>::empty() =~= progress_views(seen@));
    seen
}

/// The encoder is launched in one case only: the export was ready, and the
/// countdown measured is no longer than the time given to each clip.
pub proof fn lemma_launch_needs_valid_countdown(state: StateView, event: EventView)
    ensures
        transition(state, event).action is Launch ==> state is Ready && event is Probed
            && event->Probed_0 <= state->Ready_0.duration,
{
}

/// A countdown longer than the time given to each clip ends the export at
/// once: the consumer sees one error and nothing else, whatever is reported
/// afterwards, and the step asks for no launch.
pub proof fn lemma_long_countdown_fails(export: ExportView, seconds: u32, later: Seq<EventView>)
    requires
        seconds > export.duration,
    ensures
        transition(StateView::Ready(export), EventView::Probed(seconds)) == failed_with(
            ExportErrorView::InvalidDuration,
        ),
        trace(StateView::Ready(export), seq![EventView::Probed(seconds)] + later) == seq![
            ProgressView::Error(message_text(ExportErrorView::InvalidDuration)),
        ],
{
    let events = seq![EventView::Probed(seconds)] + later;
    assert(events.first() == EventView::Probed(seconds));
    assert(events.drop_first() =~= later);
    lemma_finished_is_silent(later);
    assert(seq![ProgressView::Error(message_text(ExportErrorView::InvalidDuration))]
        + Seq::<ProgressView>::empty() =~= seq![
        ProgressView::Error(message_text(ExportErrorView::InvalidDuration)),
    ]);
}

/// No event leads out of the finished state, and none reaches the consumer
/// from there.
pub proof fn lemma_finished_is_silent(events: Seq<EventView>)
    ensures
        trace(StateView::Finished, events) == Seq::<ProgressView>::empty(),
        events.len() > 0 ==> transition(StateView::Finished, events.first()).state
            == StateView::Finished,
    decreases events.len(),
{
    if events.len() > 0 {
        lemma_finished_is_silent(events.drop_first());
    }
}

/// An event that ends an export is the last one the consumer sees: nothing
/// follows `Done` or `Error`.
pub proof fn lemma_terminal_is_last(state: StateView, events: Seq<EventView>, i: int)
    requires
        0 <= i < trace(state, events).len(),
        is_terminal(trace(state, events)[i]),
    ensures
        i == trace(state, events).len() - 1,
    decreases events.len(),
{
    let step = transition(state, events.first());
    let rest = trace(step.state, events.drop_first());
    match step.progress {
        Some(p) => {
            assert(trace(state, events) =~= seq![p] + rest);
            if i == 0 {
                assert(step.state == StateView::Finished);
                lemma_finished_is_silent(events.drop_first());
            } else {
                assert(trace(state, events)[i] == rest[i - 1]);
                lemma_terminal_is_last(step.state, events.drop_first(), i - 1);
            }
        },
        None => {
            lemma_terminal_is_last(step.state, events.drop_first(), i);
        },
    }
}

/// `Started` reaches the consumer of an export at most once, and before any
/// other event.
pub proof fn lemma_started_is_first(export: ExportView, events: Seq<EventView>, i: int)
    requires
        0 <= i < trace(StateView::Ready(export), events).len(),
        trace(StateView::Ready(export), events)[i] is Started,
    ensures
        i == 0,
{
    let step = transition(StateView::Ready(export), events.first());
    let rest = events.drop_first();
    if step.state is Finished {
        lemma_finished_is_silent(rest);
        assert(trace(StateView::Ready(export), events) =~= seq![step.progress->0]);
    } else {
        assert(trace(StateView::Ready(export), events) == trace(StateView::Launching, rest));
        lemma_started_follows_launch(rest, i);
    }
}

/// While the encoder is being launched, `Started` can only be the next
/// event for the consumer.
pub proof fn lemma_started_follows_launch(events: Seq<EventView>, i: int)
    requires
        0 <= i < trace(StateView::Launching, events).len(),
        trace(StateView::Launching, events)[i] is Started,
    ensures
        i == 0,
{
    let step = transition(StateView::Launching, events.first());
    let rest = events.drop_first();
    let tail = trace(step.state, rest);
    assert(trace(StateView::Launching, events) =~= seq![step.progress->0] + tail);
    if step.state is Finished {
        lemma_finished_is_silent(rest);
    } else if i > 0 {
        assert(tail[i - 1] is Started);
        lemma_no_start_while_exporting(rest, i - 1);
    }
}

/// Once the encoder runs, `Started` does not reach the consumer again.
pub proof fn lemma_no_start_while_exporting(events: Seq<EventView>, i: int)
    requires
        0 <= i < trace(StateView::Exporting, events).len(),
    ensures
        !(trace(StateView::Exporting, events)[i] is Started),
    decreases events.len(),
{
    let step = transition(StateView::Exporting, events.first());
    let rest = trace(step.state, events.drop_first());
    if step.state is Finished {
        lemma_finished_is_silent(events.drop_first());
    } else {
        match step.progress {
            Some(p) => {
                assert(trace(StateView::Exporting, events) =~= seq![p] + rest);
                if i > 0 {
                    lemma_no_start_while_exporting(events.drop_first(), i - 1);
                }
            },
            None => {
                lemma_no_start_while_exporting(events.drop_first(), i);
            },
        }
    }
}

} // verus!
