//! The automaton that drives one measurement process.
//!
//! The caller owns the process, its pipes, the timers and the pattern
//! display. It hands every happening to [`Driver::step`] as an [`Input`] and
//! carries out the [`Action`]s that come back, in their order. The automaton
//! decides; it never waits and never reads or writes by itself.

use vstd::prelude::*;
use vstd::slice::slice_to_vec;
use vstd::string::StringSliceAdditionalSpecFns;
use crate::bytes::{contains, trimmed};
use crate::spotread::line::{classify_output_line, is_diagnostic, is_init_line, is_reading_ready,
    output_line, OutputLine, OutputLineView, Triple, DIAGNOSTIC_SUBSTR,
    EXPECTED_INIT_LINE, READING_READY_SUBSTR};

verus! {

/// Milliseconds to wait after a failed read of standard output during the handshake.
pub const BACKOFF_MS: u64 = 1000;

/// Milliseconds between the two quit keystrokes.
pub const QUIT_PAUSE_MS: u64 = 500;

/// Milliseconds after which a wait on the tool during a measurement is given up.
pub const MEASUREMENT_TIMEOUT_MS: u64 = 30000;

/// Milliseconds for which the patch settles when no pattern was inserted before it.
pub const SETTLE_MS: u64 = 500;

/// Milliseconds for which the patch settles after an inserted pattern.
pub const SETTLE_AFTER_INSERTION_MS: u64 = 1500;

/// One request for a reading. The caller keeps what belongs to `id`: the
/// target and the patterns to show.
#[derive(Debug, Clone, Copy, PartialEq, Eq)]
pub struct ReadingRequest {
    pub id: u64,
    /// Whether a pattern is flashed before the patch.
    pub insert_pattern: bool,
    /// For how long the inserted pattern is shown.
    pub insertion_ms: u64,
}

/// What the operator asks of the driver.
#[derive(Debug, Clone, Copy, PartialEq, Eq)]
pub enum SpotreadCmd {
    DoReading(ReadingRequest),
    Exit,
}

/// The timers that the caller runs for the driver.
#[derive(Debug, Clone, Copy, PartialEq, Eq)]
pub enum Timer {
    Backoff,
    QuitPause,
    Measurement,
}

/// What is written to the tool's standard input.
#[derive(Debug, Clone, Copy, PartialEq, Eq)]
pub enum Keys {
    /// A bare line feed: take the reading.
    Trigger,
    /// `q`, carriage return, line feed.
    Quit,
}

impl Keys {
    /// The bytes that are written.
    pub open spec fn bytes(self) -> Seq<u8> {
        match self {
            Keys::Trigger => seq![0x0au8],
            Keys::Quit => seq![0x71u8, 0x0du8, 0x0au8],
        }
    }

    /// The bytes that are written.
    pub fn to_bytes(self) -> (r: Vec<u8>)
        ensures
            r@ == self.bytes(),
    {
        match self {
            Keys::Trigger => vec![0x0au8],
            Keys::Quit => vec![0x71u8, 0x0du8, 0x0au8],
        }
    }
}

/// Where the driver stands.
#[derive(Debug, Clone, Copy, PartialEq, Eq)]
pub enum Phase {
    /// The process is being started.
    Launching,
    /// The banner of the instrument has not come yet.
    AwaitingBanner,
    /// The banner has come, the first prompt has not.
    AwaitingPrompt,
    /// A read failed during the handshake; the flag tells whether the banner had come.
    BackingOff(bool),
    /// Ready for a command.
    Idle,
    /// A reading was asked for and the prompt has to be seen again first.
    Resyncing(ReadingRequest),
    /// The inserted pattern is on the display.
    ShowingInsertion(ReadingRequest),
    /// The patch is on the display and settles.
    ShowingPatch(ReadingRequest),
    /// The reading was triggered; its result is awaited.
    AwaitingResult(ReadingRequest),
    /// An exit was asked for and the prompt has to be seen again first.
    QuitResyncing,
    /// The first quit keystroke is out; the second follows after the pause.
    QuitPausing,
    /// The exit status of the process is awaited.
    AwaitingExit,
    /// The process is gone.
    Terminated,
}

/// The states of the driver as the operator sees them.
#[derive(Debug, Clone, Copy, PartialEq, Eq)]
pub enum Stage {
    Launching,
    AwaitingHandshake,
    Idle,
    Measuring,
    Exiting,
    Terminated,
}

/// How the caller reads the tool's standard output in a phase.
#[derive(Debug, Clone, Copy, PartialEq, Eq)]
pub enum StdoutMode {
    /// Not at all: what the tool prints stays in the pipe.
    Leave,
    /// Line by line.
    Lines,
    /// As it comes, in chunks.
    Chunks,
}

/// Three decimal literals, owned.
#[derive(Debug, Clone, PartialEq, Eq)]
pub struct Literals {
    pub first: Vec<u8>,
    pub second: Vec<u8>,
    pub third: Vec<u8>,
}

impl View for Literals {
    type V = Seq<Seq<u8>>;

    open spec fn view(&self) -> Seq<Seq<u8>> {
        seq![self.first@, self.second@, self.third@]
    }
}

/// The reading that answers one request: the literals of its tristimulus
/// values and of the Lab values that the instrument reports beside them.
#[derive(Debug, Clone, PartialEq, Eq)]
pub struct Measurement {
    pub request: u64,
    pub xyz: Literals,
    pub lab: Literals,
}

pub struct MeasurementView {
    pub request: u64,
    pub xyz: Seq<Seq<u8>>,
    pub lab: Seq<Seq<u8>>,
}

impl View for Measurement {
    type V = MeasurementView;

    open spec fn view(&self) -> MeasurementView {
        MeasurementView { request: self.request, xyz: self.xyz@, lab: self.lab@ }
    }
}

/// What the driver tells its collaborators.
#[derive(Debug, Clone, PartialEq, Eq)]
pub enum Event {
    ProcessStarted(bool),
    MeasurementResult(Option<Measurement>),
    ProcessStopped,
}

pub enum EventView {
    ProcessStarted(bool),
    MeasurementResult(Option<MeasurementView>),
    ProcessStopped,
}

impl View for Event {
    type V = EventView;

    open spec fn view(&self) -> EventView {
        match *self {
            Event::ProcessStarted(b) => EventView::ProcessStarted(b),
            Event::MeasurementResult(Some(m)) => EventView::MeasurementResult(Some(m@)),
            Event::MeasurementResult(None) => EventView::MeasurementResult(None),
            Event::ProcessStopped => EventView::ProcessStopped,
        }
    }
}

/// What the caller has to do for the driver.
#[derive(Debug, Clone, PartialEq, Eq)]
pub enum Action {
    /// Write the keys to the tool's standard input and flush.
    WriteStdin(Keys),
    /// Start the timer; it fires after so many milliseconds.
    StartTimer(Timer, u64),
    /// Stop the timer if it runs.
    CancelTimer(Timer),
    /// Show a pattern and hold it: the inserted pattern or the patch of the request.
    ShowPattern { request: u64, inserted: bool, hold_ms: u64 },
    /// Read what is left of standard output and wait for the process to exit.
    WaitForExit,
    /// Hand the event to the collaborators.
    Emit(Event),
}

pub enum ActionView {
    WriteStdin(Keys),
    StartTimer(Timer, u64),
    CancelTimer(Timer),
    ShowPattern { request: u64, inserted: bool, hold_ms: u64 },
    WaitForExit,
    Emit(EventView),
}

impl View for Action {
    type V = ActionView;

    open spec fn view(&self) -> ActionView {
        match *self {
            Action::WriteStdin(k) => ActionView::WriteStdin(k),
            Action::StartTimer(t, ms) => ActionView::StartTimer(t, ms),
            Action::CancelTimer(t) => ActionView::CancelTimer(t),
            Action::ShowPattern { request, inserted, hold_ms } => ActionView::ShowPattern {
                request,
                inserted,
                hold_ms,
            },
            Action::WaitForExit => ActionView::WaitForExit,
            Action::Emit(e) => ActionView::Emit(e@),
        }
    }
}

/// The views of a list of actions.
pub open spec fn action_views(actions: Seq<Action>) -> Seq<ActionView> {
    Seq::new(actions.len(), |i: int| actions[i]@)
}

/// What happened.
pub enum Input<'a> {
    /// The attempt to start the process ended; `true` if it runs with its three pipes.
    Spawned(bool),
    /// Standard output gave this text.
    Stdout(&'a [u8]),
    /// Reading standard output failed.
    StdoutFailed,
    /// Standard error gave this line.
    Stderr(&'a [u8]),
    /// The operator sent a command.
    Command(SpotreadCmd),
    /// The pattern display has shown the pattern and held it.
    PatternShown,
    /// A timer fired.
    TimerFired(Timer),
    /// The process exited; `true` if with success.
    Exited(bool),
}

pub enum InputView {
    Spawned(bool),
    Stdout(Seq<u8>),
    StdoutFailed,
    Stderr(Seq<u8>),
    Command(SpotreadCmd),
    PatternShown,
    TimerFired(Timer),
    Exited(bool),
}

impl<'a> View for Input<'a> {
    type V = InputView;

    open spec fn view(&self) -> InputView {
        match *self {
            Input::Spawned(ok) => InputView::Spawned(ok),
            Input::Stdout(text) => InputView::Stdout(text@),
            Input::StdoutFailed => InputView::StdoutFailed,
            Input::Stderr(line) => InputView::Stderr(line@),
            Input::Command(c) => InputView::Command(c),
            Input::PatternShown => InputView::PatternShown,
            Input::TimerFired(t) => InputView::TimerFired(t),
            Input::Exited(ok) => InputView::Exited(ok),
        }
    }
}

/// The driver of one measurement process.
pub struct Driver {
    pub phase: Phase,
    /// Whether the prompt has been seen since the last reading.
    pub can_take_reading: bool,
    /// What standard output gave while the banner or the prompt is awaited.
    pub read_buf: Vec<u8>,
    /// The commands that wait for their turn, oldest first.
    pub queue: Vec<SpotreadCmd>,
    /// Whether the process exited with success, once it has exited.
    pub exit_ok: Option<bool>,
}

pub struct DriverView {
    pub phase: Phase,
    pub can_take_reading: bool,
    pub read_buf: Seq<u8>,
    pub queue: Seq<SpotreadCmd>,
    pub exit_ok: Option<bool>,
}

impl View for Driver {
    type V = DriverView;

    open spec fn view(&self) -> DriverView {
        DriverView {
            phase: self.phase,
            can_take_reading: self.can_take_reading,
            read_buf: self.read_buf@,
            queue: self.queue@,
            exit_ok: self.exit_ok,
        }
    }
}

/// The state in which a driver begins.
pub open spec fn initial() -> DriverView {
    DriverView {
        phase: Phase::Launching,
        can_take_reading: false,
        read_buf: Seq::empty(),
        queue: Seq::empty(),
        exit_ok: None,
    }
}

/// The stage that a phase belongs to.
pub open spec fn stage_of(phase: Phase) -> Stage {
    match phase {
        Phase::Launching => Stage::Launching,
        Phase::AwaitingBanner | Phase::AwaitingPrompt | Phase::BackingOff(_) =>
            Stage::AwaitingHandshake,
        Phase::Idle => Stage::Idle,
        Phase::Resyncing(_) | Phase::ShowingInsertion(_) | Phase::ShowingPatch(_)
        | Phase::AwaitingResult(_) => Stage::Measuring,
        Phase::QuitResyncing | Phase::QuitPausing | Phase::AwaitingExit => Stage::Exiting,
        Phase::Terminated => Stage::Terminated,
    }
}

/// Whether the process runs and its exit has not been asked for or forced.
pub open spec fn is_live(phase: Phase) -> bool {
    match stage_of(phase) {
        Stage::AwaitingHandshake | Stage::Idle | Stage::Measuring => true,
        _ => phase == Phase::QuitResyncing || phase == Phase::QuitPausing,
    }
}

/// The timer that runs in a phase.
pub open spec fn pending_timer(phase: Phase) -> Option<Timer> {
    match phase {
        Phase::BackingOff(_) => Some(Timer::Backoff),
        Phase::Resyncing(_) | Phase::AwaitingResult(_) => Some(Timer::Measurement),
        Phase::QuitPausing => Some(Timer::QuitPause),
        _ => None,
    }
}

/// The action that stops the timer of a phase, if one runs in it.
pub open spec fn cancel_pending(phase: Phase) -> Seq<ActionView> {
    match pending_timer(phase) {
        Some(t) => seq![ActionView::CancelTimer(t)],
        None => Seq::empty(),
    }
}

/// How standard output is read in a phase.
pub open spec fn stdout_mode_of(phase: Phase) -> StdoutMode {
    match phase {
        Phase::AwaitingBanner | Phase::AwaitingResult(_) => StdoutMode::Lines,
        Phase::AwaitingPrompt | Phase::Resyncing(_) | Phase::QuitResyncing => StdoutMode::Chunks,
        _ => StdoutMode::Leave,
    }
}

/// Whether `text`, trimmed, holds the banner.
pub open spec fn holds_banner(text: Seq<u8>) -> bool {
    contains(trimmed(text), EXPECTED_INIT_LINE.spec_bytes())
}

/// Whether `text`, trimmed, ends with the prompt.
pub open spec fn ends_with_prompt(text: Seq<u8>) -> bool {
    READING_READY_SUBSTR.spec_bytes().is_suffix_of(trimmed(text))
}

/// Whether `line`, trimmed, begins a fatal diagnostic.
pub open spec fn is_fatal(line: Seq<u8>) -> bool {
    DIAGNOSTIC_SUBSTR.spec_bytes().is_prefix_of(trimmed(line))
}

/// The patch of a request goes on the display, after the inserted pattern
/// where the request asks for one.
pub open spec fn show_first(s: DriverView, r: ReadingRequest) -> (DriverView, Seq<ActionView>) {
    if r.insert_pattern {
        (
            DriverView { phase: Phase::ShowingInsertion(r), ..s },
            seq![
                ActionView::ShowPattern { request: r.id, inserted: true, hold_ms: r.insertion_ms },
            ],
        )
    } else {
        (
            DriverView { phase: Phase::ShowingPatch(r), ..s },
            seq![ActionView::ShowPattern { request: r.id, inserted: false, hold_ms: SETTLE_MS }],
        )
    }
}

/// The first quit keystroke goes out.
pub open spec fn quit_first(s: DriverView) -> (DriverView, Seq<ActionView>) {
    (
        DriverView { phase: Phase::QuitPausing, ..s },
        seq![
            ActionView::WriteStdin(Keys::Quit),
            ActionView::StartTimer(Timer::QuitPause, QUIT_PAUSE_MS),
        ],
    )
}

/// An idle driver takes up a command.
pub open spec fn begin(s: DriverView, cmd: SpotreadCmd) -> (DriverView, Seq<ActionView>) {
    match cmd {
        SpotreadCmd::DoReading(r) => if s.can_take_reading {
            show_first(s, r)
        } else {
            (
                DriverView { phase: Phase::Resyncing(r), read_buf: Seq::empty(), ..s },
                seq![ActionView::StartTimer(Timer::Measurement, MEASUREMENT_TIMEOUT_MS)],
            )
        },
        SpotreadCmd::Exit => if s.can_take_reading {
            quit_first(s)
        } else {
            (DriverView { phase: Phase::QuitResyncing, read_buf: Seq::empty(), ..s }, Seq::empty())
        },
    }
}

/// The driver becomes idle and takes up the oldest waiting command, if one waits.
pub open spec fn to_idle(s: DriverView, done: Seq<ActionView>) -> (DriverView, Seq<ActionView>) {
    if s.queue.len() > 0 {
        let (next, more) = begin(
            DriverView { phase: Phase::Idle, queue: s.queue.drop_first(), ..s },
            s.queue[0],
        );
        (next, done + more)
    } else {
        (DriverView { phase: Phase::Idle, ..s }, done)
    }
}

/// The process is given up: nothing more is written to it, its exit is awaited.
pub open spec fn force_exit(s: DriverView) -> (DriverView, Seq<ActionView>) {
    (
        DriverView { phase: Phase::AwaitingExit, ..s },
        cancel_pending(s.phase) + seq![ActionView::WaitForExit],
    )
}

/// A measurement ends without a reading.
pub open spec fn fail_measurement(s: DriverView) -> (DriverView, Seq<ActionView>) {
    to_idle(
        s,
        seq![
            ActionView::CancelTimer(Timer::Measurement),
            ActionView::Emit(EventView::MeasurementResult(None)),
        ],
    )
}

/// What the driver does with text from standard output.
pub open spec fn on_stdout(s: DriverView, text: Seq<u8>) -> (DriverView, Seq<ActionView>) {
    let buf = s.read_buf + text;
    match s.phase {
        Phase::AwaitingBanner => if holds_banner(buf) {
            (DriverView { phase: Phase::AwaitingPrompt, read_buf: Seq::empty(), ..s }, Seq::empty())
        } else {
            (DriverView { read_buf: buf, ..s }, Seq::empty())
        },
        Phase::AwaitingPrompt => if ends_with_prompt(buf) {
            to_idle(
                DriverView { can_take_reading: true, read_buf: Seq::empty(), ..s },
                seq![ActionView::Emit(EventView::ProcessStarted(true))],
            )
        } else {
            (DriverView { read_buf: buf, ..s }, Seq::empty())
        },
        Phase::Resyncing(r) => if ends_with_prompt(buf) {
            let (next, more) = show_first(
                DriverView { can_take_reading: true, read_buf: Seq::empty(), ..s },
                r,
            );
            (next, seq![ActionView::CancelTimer(Timer::Measurement)] + more)
        } else {
            (DriverView { read_buf: buf, ..s }, Seq::empty())
        },
        Phase::QuitResyncing => if ends_with_prompt(buf) {
            quit_first(DriverView { can_take_reading: true, read_buf: Seq::empty(), ..s })
        } else {
            (DriverView { read_buf: buf, ..s }, Seq::empty())
        },
        Phase::AwaitingResult(r) => match output_line(text) {
            OutputLineView::Reading(xyz, lab) => to_idle(
                DriverView { can_take_reading: false, ..s },
                seq![
                    ActionView::CancelTimer(Timer::Measurement),
                    ActionView::Emit(
                        EventView::MeasurementResult(
                            Some(MeasurementView { request: r.id, xyz, lab }),
                        ),
                    ),
                ],
            ),
            OutputLineView::Malformed | OutputLineView::Failed => fail_measurement(s),
            OutputLineView::Blank | OutputLineView::Other => (s, Seq::empty()),
        },
        _ => (s, Seq::empty()),
    }
}

/// What the driver does when a read of standard output fails.
pub open spec fn on_stdout_failed(s: DriverView) -> (DriverView, Seq<ActionView>) {
    match s.phase {
        Phase::AwaitingBanner => (
            DriverView { phase: Phase::BackingOff(false), ..s },
            seq![ActionView::StartTimer(Timer::Backoff, BACKOFF_MS)],
        ),
        Phase::AwaitingPrompt => (
            DriverView { phase: Phase::BackingOff(true), ..s },
            seq![ActionView::StartTimer(Timer::Backoff, BACKOFF_MS)],
        ),
        Phase::Resyncing(_) | Phase::AwaitingResult(_) => fail_measurement(s),
        Phase::QuitResyncing => force_exit(s),
        _ => (s, Seq::empty()),
    }
}

/// What the driver does with a command.
pub open spec fn on_command(s: DriverView, cmd: SpotreadCmd) -> (DriverView, Seq<ActionView>) {
    match stage_of(s.phase) {
        Stage::Idle => to_idle(DriverView { queue: s.queue.push(cmd), ..s }, Seq::empty()),
        Stage::Launching | Stage::AwaitingHandshake | Stage::Measuring => (
            DriverView { queue: s.queue.push(cmd), ..s },
            Seq::empty(),
        ),
        Stage::Exiting | Stage::Terminated => (s, Seq::empty()),
    }
}

/// What the driver does when the pattern display is done.
pub open spec fn on_pattern_shown(s: DriverView) -> (DriverView, Seq<ActionView>) {
    match s.phase {
        Phase::ShowingInsertion(r) => (
            DriverView { phase: Phase::ShowingPatch(r), ..s },
            seq![
                ActionView::ShowPattern {
                    request: r.id,
                    inserted: false,
                    hold_ms: SETTLE_AFTER_INSERTION_MS,
                },
            ],
        ),
        Phase::ShowingPatch(r) => (
            DriverView { phase: Phase::AwaitingResult(r), ..s },
            seq![
                ActionView::StartTimer(Timer::Measurement, MEASUREMENT_TIMEOUT_MS),
                ActionView::WriteStdin(Keys::Trigger),
            ],
        ),
        _ => (s, Seq::empty()),
    }
}

/// What the driver does when a timer fires.
pub open spec fn on_timer(s: DriverView, t: Timer) -> (DriverView, Seq<ActionView>) {
    if pending_timer(s.phase) != Some(t) {
        (s, Seq::empty())
    } else {
        match s.phase {
            Phase::BackingOff(seen) => (
                DriverView {
                    phase: if seen {
                        Phase::AwaitingPrompt
                    } else {
                        Phase::AwaitingBanner
                    },
                    ..s
                },
                Seq::empty(),
            ),
            Phase::QuitPausing => (
                DriverView { phase: Phase::AwaitingExit, ..s },
                seq![ActionView::WriteStdin(Keys::Quit), ActionView::WaitForExit],
            ),
            _ => to_idle(s, seq![ActionView::Emit(EventView::MeasurementResult(None))]),
        }
    }
}

/// What the driver does when the process has exited.
pub open spec fn on_exited(s: DriverView, ok: bool) -> (DriverView, Seq<ActionView>) {
    if s.phase == Phase::Launching || s.phase == Phase::Terminated {
        (s, Seq::empty())
    } else {
        (
            DriverView { phase: Phase::Terminated, exit_ok: Some(ok), ..s },
            cancel_pending(s.phase) + seq![
                ActionView::Emit(EventView::ProcessStarted(false)),
                ActionView::Emit(EventView::ProcessStopped),
            ],
        )
    }
}

/// The state after `input` and the actions that it calls for.
pub open spec fn next(s: DriverView, input: InputView) -> (DriverView, Seq<ActionView>) {
    match input {
        InputView::Spawned(ok) => if s.phase == Phase::Launching {
            if ok {
                (
                    DriverView { phase: Phase::AwaitingBanner, read_buf: Seq::empty(), ..s },
                    Seq::empty(),
                )
            } else {
                (
                    DriverView { phase: Phase::Terminated, ..s },
                    seq![ActionView::Emit(EventView::ProcessStarted(false))],
                )
            }
        } else {
            (s, Seq::empty())
        },
        InputView::Stdout(text) => on_stdout(s, text),
        InputView::StdoutFailed => on_stdout_failed(s),
        InputView::Stderr(line) => if is_fatal(line) && is_live(s.phase) {
            force_exit(s)
        } else {
            (s, Seq::empty())
        },
        InputView::Command(cmd) => on_command(s, cmd),
        InputView::PatternShown => on_pattern_shown(s),
        InputView::TimerFired(t) => on_timer(s, t),
        InputView::Exited(ok) => on_exited(s, ok),
    }
}

proof fn lemma_views_add(a: Seq<Action>, b: Seq<Action>)
    ensures
        action_views(a + b) == action_views(a) + action_views(b),
{
    assert(action_views(a + b) =~= action_views(a) + action_views(b));
}

proof fn lemma_views_empty()
    ensures
        action_views(Seq::<Action>::empty()) == Seq::<ActionView>::empty(),
{
    assert(action_views(Seq::<Action>::empty()) =~= Seq::<ActionView>::empty());
}

/// `first` followed by `second`.
fn join(first: Vec<Action>, second: Vec<Action>) -> (r: Vec<Action>)
    ensures
        action_views(r@) == action_views(first@) + action_views(second@),
{
    let mut r = first;
    let mut rest = second;
    r.append(&mut rest);
    proof {
        lemma_views_add(first@, second@);
    }
    r
}

/// No action.
fn nothing() -> (r: Vec<Action>)
    ensures
        action_views(r@) == Seq::<ActionView>::empty(),
{
    proof {
        lemma_views_empty();
    }
    Vec::new()
}

/// One action.
fn one(a: Action) -> (r: Vec<Action>)
    ensures
        action_views(r@) == seq![a@],
{
    let mut r: Vec<Action> = Vec::new();
    r.push(a);
    assert(action_views(r@) =~= seq![a@]);
    r
}

/// Two actions.
fn two(a: Action, b: Action) -> (r: Vec<Action>)
    ensures
        action_views(r@) == seq![a@, b@],
{
    let mut r: Vec<Action> = Vec::new();
    r.push(a);
    r.push(b);
    assert(action_views(r@) =~= seq![a@, b@]);
    r
}

/// Appends `text` to `buf`.
fn append_bytes(buf: &mut Vec<u8>, text: &[u8])
    ensures
        final(buf)@ == old(buf)@ + text@,
{
    let mut i: usize = 0;
    while i < text.len()
        invariant
            i <= text.len(),
            buf@ == old(buf)@ + text@.subrange(0, i as int),
        decreases text.len() - i,
    {
        buf.push(text[i]);
        assert(buf@ =~= old(buf)@ + text@.subrange(0, i + 1));
        i += 1;
    }
    assert(text@.subrange(0, text.len() as int) =~= text@);
}

/// An owned copy of three literals.
fn own_triple(t: &Triple<'_>) -> (r: Literals)
    ensures
        r@ == t@,
{
    Literals {
        first: slice_to_vec(t.first),
        second: slice_to_vec(t.second),
        third: slice_to_vec(t.third),
    }
}

impl Driver {
    /// A driver whose process is about to be started.
    pub fn new() -> (d: Driver)
        ensures
            d@ == initial(),
    {
        Driver {
            phase: Phase::Launching,
            can_take_reading: false,
            read_buf: Vec::new(),
            queue: Vec::new(),
            exit_ok: None,
        }
    }

    /// The stage in which the driver stands.
    pub fn stage(&self) -> (r: Stage)
        ensures
            r == stage_of(self.phase),
    {
        match self.phase {
            Phase::Launching => Stage::Launching,
            Phase::AwaitingBanner | Phase::AwaitingPrompt | Phase::BackingOff(_) =>
                Stage::AwaitingHandshake,
            Phase::Idle => Stage::Idle,
            Phase::Resyncing(_) | Phase::ShowingInsertion(_) | Phase::ShowingPatch(_)
            | Phase::AwaitingResult(_) => Stage::Measuring,
            Phase::QuitResyncing | Phase::QuitPausing | Phase::AwaitingExit => Stage::Exiting,
            Phase::Terminated => Stage::Terminated,
        }
    }

    /// How the caller reads standard output while the driver stands where it stands.
    pub fn stdout_mode(&self) -> (r: StdoutMode)
        ensures
            r == stdout_mode_of(self.phase),
    {
        match self.phase {
            Phase::AwaitingBanner | Phase::AwaitingResult(_) => StdoutMode::Lines,
            Phase::AwaitingPrompt | Phase::Resyncing(_) | Phase::QuitResyncing =>
                StdoutMode::Chunks,
            _ => StdoutMode::Leave,
        }
    }

    fn cancel_pending(&self) -> (r: Vec<Action>)
        ensures
            action_views(r@) == cancel_pending(self.phase),
    {
        match self.phase {
            Phase::BackingOff(_) => one(Action::CancelTimer(Timer::Backoff)),
            Phase::Resyncing(_) | Phase::AwaitingResult(_) => one(
                Action::CancelTimer(Timer::Measurement),
            ),
            Phase::QuitPausing => one(Action::CancelTimer(Timer::QuitPause)),
            _ => nothing(),
        }
    }

    fn show_first(&mut self, r: ReadingRequest) -> (acts: Vec<Action>)
        ensures
            (final(self)@, action_views(acts@)) == show_first(old(self)@, r),
    {
        if r.insert_pattern {
            self.phase = Phase::ShowingInsertion(r);
            one(Action::ShowPattern { request: r.id, inserted: true, hold_ms: r.insertion_ms })
        } else {
            self.phase = Phase::ShowingPatch(r);
            one(Action::ShowPattern { request: r.id, inserted: false, hold_ms: SETTLE_MS })
        }
    }

    fn quit_first(&mut self) -> (acts: Vec<Action>)
        ensures
            (final(self)@, action_views(acts@)) == quit_first(old(self)@),
    {
        self.phase = Phase::QuitPausing;
        two(Action::WriteStdin(Keys::Quit), Action::StartTimer(Timer::QuitPause, QUIT_PAUSE_MS))
    }

    fn begin(&mut self, cmd: SpotreadCmd) -> (acts: Vec<Action>)
        ensures
            (final(self)@, action_views(acts@)) == begin(old(self)@, cmd),
    {
        match cmd {
            SpotreadCmd::DoReading(r) => {
                if self.can_take_reading {
                    self.show_first(r)
                } else {
                    self.phase = Phase::Resyncing(r);
                    self.read_buf.clear();
                    one(Action::StartTimer(Timer::Measurement, MEASUREMENT_TIMEOUT_MS))
                }
            },
            SpotreadCmd::Exit => {
                if self.can_take_reading {
                    self.quit_first()
                } else {
                    self.phase = Phase::QuitResyncing;
                    self.read_buf.clear();
                    nothing()
                }
            },
        }
    }

    fn to_idle(&mut self, done: Vec<Action>) -> (acts: Vec<Action>)
        ensures
            (final(self)@, action_views(acts@)) == to_idle(old(self)@, action_views(done@)),
    {
        self.phase = Phase::Idle;
        if self.queue.len() > 0 {
            let cmd = self.queue.remove(0);
            assert(self.queue@ =~= old(self).queue@.drop_first());
            let more = self.begin(cmd);
            join(done, more)
        } else {
            done
        }
    }

    fn force_exit(&mut self) -> (acts: Vec<Action>)
        ensures
            (final(self)@, action_views(acts@)) == force_exit(old(self)@),
    {
        let cancel = self.cancel_pending();
        self.phase = Phase::AwaitingExit;
        join(cancel, one(Action::WaitForExit))
    }

    fn fail_measurement(&mut self) -> (acts: Vec<Action>)
        ensures
            (final(self)@, action_views(acts@)) == fail_measurement(old(self)@),
    {
        let done = two(
            Action::CancelTimer(Timer::Measurement),
            Action::Emit(Event::MeasurementResult(None)),
        );
        self.to_idle(done)
    }

    fn on_stdout(&mut self, text: &[u8]) -> (acts: Vec<Action>)
        ensures
            (final(self)@, action_views(acts@)) == on_stdout(old(self)@, text@),
    {
        match self.phase {
            Phase::AwaitingBanner => {
                append_bytes(&mut self.read_buf, text);
                if is_init_line(self.read_buf.as_slice()) {
                    self.phase = Phase::AwaitingPrompt;
                    self.read_buf.clear();
                }
                nothing()
            },
            Phase::AwaitingPrompt => {
                append_bytes(&mut self.read_buf, text);
                if is_reading_ready(self.read_buf.as_slice()) {
                    self.can_take_reading = true;
                    self.read_buf.clear();
                    self.to_idle(one(Action::Emit(Event::ProcessStarted(true))))
                } else {
                    nothing()
                }
            },
            Phase::Resyncing(r) => {
                append_bytes(&mut self.read_buf, text);
                if is_reading_ready(self.read_buf.as_slice()) {
                    self.can_take_reading = true;
                    self.read_buf.clear();
                    let more = self.show_first(r);
                    join(one(Action::CancelTimer(Timer::Measurement)), more)
                } else {
                    nothing()
                }
            },
            Phase::QuitResyncing => {
                append_bytes(&mut self.read_buf, text);
                if is_reading_ready(self.read_buf.as_slice()) {
                    self.can_take_reading = true;
                    self.read_buf.clear();
                    self.quit_first()
                } else {
                    nothing()
                }
            },
            Phase::AwaitingResult(r) => {
                match classify_output_line(text) {
                    OutputLine::Reading(texts) => {
                        let m = Measurement {
                            request: r.id,
                            xyz: own_triple(&texts.xyz),
                            lab: own_triple(&texts.lab),
                        };
                        self.can_take_reading = false;
                        let done = two(
                            Action::CancelTimer(Timer::Measurement),
                            Action::Emit(Event::MeasurementResult(Some(m))),
                        );
                        self.to_idle(done)
                    },
                    OutputLine::Malformed | OutputLine::Failed => self.fail_measurement(),
                    OutputLine::Blank | OutputLine::Other => nothing(),
                }
            },
            _ => nothing(),
        }
    }

    fn on_stdout_failed(&mut self) -> (acts: Vec<Action>)
        ensures
            (final(self)@, action_views(acts@)) == on_stdout_failed(old(self)@),
    {
        match self.phase {
            Phase::AwaitingBanner => {
                self.phase = Phase::BackingOff(false);
                one(Action::StartTimer(Timer::Backoff, BACKOFF_MS))
            },
            Phase::AwaitingPrompt => {
                self.phase = Phase::BackingOff(true);
                one(Action::StartTimer(Timer::Backoff, BACKOFF_MS))
            },
            Phase::Resyncing(_) | Phase::AwaitingResult(_) => self.fail_measurement(),
            Phase::QuitResyncing => self.force_exit(),
            _ => nothing(),
        }
    }

    fn on_command(&mut self, cmd: SpotreadCmd) -> (acts: Vec<Action>)
        ensures
            (final(self)@, action_views(acts@)) == on_command(old(self)@, cmd),
    {
        match self.stage() {
            Stage::Idle => {
                self.queue.push(cmd);
                self.to_idle(nothing())
            },
            Stage::Launching | Stage::AwaitingHandshake | Stage::Measuring => {
                self.queue.push(cmd);
                nothing()
            },
            Stage::Exiting | Stage::Terminated => nothing(),
        }
    }

    fn on_pattern_shown(&mut self) -> (acts: Vec<Action>)
        ensures
            (final(self)@, action_views(acts@)) == on_pattern_shown(old(self)@),
    {
        match self.phase {
            Phase::ShowingInsertion(r) => {
                self.phase = Phase::ShowingPatch(r);
                one(
                    Action::ShowPattern {
                        request: r.id,
                        inserted: false,
                        hold_ms: SETTLE_AFTER_INSERTION_MS,
                    },
                )
            },
            Phase::ShowingPatch(r) => {
                self.phase = Phase::AwaitingResult(r);
                two(
                    Action::StartTimer(Timer::Measurement, MEASUREMENT_TIMEOUT_MS),
                    Action::WriteStdin(Keys::Trigger),
                )
            },
            _ => nothing(),
        }
    }

    fn on_timer(&mut self, t: Timer) -> (acts: Vec<Action>)
        ensures
            (final(self)@, action_views(acts@)) == on_timer(old(self)@, t),
    {
        match (self.phase, t) {
            (Phase::BackingOff(seen), Timer::Backoff) => {
                self.phase = if seen {
                    Phase::AwaitingPrompt
                } else {
                    Phase::AwaitingBanner
                };
                nothing()
            },
            (Phase::QuitPausing, Timer::QuitPause) => {
                self.phase = Phase::AwaitingExit;
                two(Action::WriteStdin(Keys::Quit), Action::WaitForExit)
            },
            (Phase::Resyncing(_), Timer::Measurement)
            | (Phase::AwaitingResult(_), Timer::Measurement) => self.to_idle(
                one(Action::Emit(Event::MeasurementResult(None))),
            ),
            _ => nothing(),
        }
    }

    fn on_exited(&mut self, ok: bool) -> (acts: Vec<Action>)
        ensures
            (final(self)@, action_views(acts@)) == on_exited(old(self)@, ok),
    {
        match self.phase {
            Phase::Launching | Phase::Terminated => nothing(),
            _ => {
                let cancel = self.cancel_pending();
                self.phase = Phase::Terminated;
                self.exit_ok = Some(ok);
                join(
                    cancel,
                    two(Action::Emit(Event::ProcessStarted(false)), Action::Emit(Event::ProcessStopped)),
                )
            },
        }
    }

    /// Takes in what happened and tells what to do about it.
    pub fn step(&mut self, input: Input<'_>) -> (acts: Vec<Action>)
        ensures
            (final(self)@, action_views(acts@)) == next(old(self)@, input@),
    {
        match input {
            Input::Spawned(ok) => {
                match self.phase {
                    Phase::Launching => {
                        if ok {
                            self.phase = Phase::AwaitingBanner;
                            self.read_buf.clear();
                            nothing()
                        } else {
                            self.phase = Phase::Terminated;
                            one(Action::Emit(Event::ProcessStarted(false)))
                        }
                    },
                    _ => nothing(),
                }
            },
            Input::Stdout(text) => self.on_stdout(text),
            Input::StdoutFailed => self.on_stdout_failed(),
            Input::Stderr(line) => {
                if self.is_live() && is_diagnostic(line) {
                    self.force_exit()
                } else {
                    nothing()
                }
            },
            Input::Command(cmd) => self.on_command(cmd),
            Input::PatternShown => self.on_pattern_shown(),
            Input::TimerFired(t) => self.on_timer(t),
            Input::Exited(ok) => self.on_exited(ok),
        }
    }

    /// Whether the process runs and its exit has not been forced or awaited.
    pub fn is_live(&self) -> (r: bool)
        ensures
            r == is_live(self.phase),
    {
        match self.phase {
            Phase::Launching | Phase::AwaitingExit | Phase::Terminated => false,
            _ => true,
        }
    }
}

} // verus!
