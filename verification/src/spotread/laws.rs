//! What holds of every run of the driver.

use vstd::prelude::*;
use crate::spotread::driver::{begin, ends_with_prompt, initial, is_fatal, next, stage_of, to_idle, ActionView, DriverView, EventView, InputView, Keys, Phase,
    ReadingRequest, SpotreadCmd, Stage, Timer, MEASUREMENT_TIMEOUT_MS};

verus! {

/// The action hands a measurement result, with or without a reading, to the collaborators.
pub open spec fn is_result(a: ActionView) -> bool {
    a matches ActionView::Emit(EventView::MeasurementResult(_))
}

/// The action writes to the tool's standard input.
pub open spec fn is_write(a: ActionView) -> bool {
    a is WriteStdin
}

/// How many of the actions hand out a measurement result.
pub open spec fn count_results(actions: Seq<ActionView>) -> nat
    decreases actions.len(),
{
    if actions.len() == 0 {
        0
    } else {
        count_results(actions.drop_last()) + if is_result(actions.last()) {
            1nat
        } else {
            0nat
        }
    }
}

/// The states that a driver can reach: an idle driver has no command waiting.
pub open spec fn well_formed(s: DriverView) -> bool {
    s.phase == Phase::Idle ==> s.queue.len() == 0
}

/// A driver begins well formed.
pub proof fn lemma_initial_well_formed()
    ensures
        well_formed(initial()),
{
}

/// Whatever happens, a well-formed driver stays well formed.
pub proof fn lemma_next_well_formed(s: DriverView, input: InputView)
    requires
        well_formed(s),
    ensures
        well_formed(next(s, input).0),
{
}

/// A reading asked of an idle driver that has not seen the prompt since the
/// last reading is not refused. The driver first waits for the prompt; once
/// standard output ends with it, the patterns of the request go on the
/// display, and once the display is done with the patch the reading is
/// triggered.
pub proof fn lemma_reading_resyncs_on_prompt(s: DriverView, r: ReadingRequest, text: Seq<u8>)
    requires
        well_formed(s),
        s.phase == Phase::Idle,
        !s.can_take_reading,
        ends_with_prompt(text),
    ensures
        ({
            let (s1, a1) = next(s, InputView::Command(SpotreadCmd::DoReading(r)));
            let (s2, a2) = next(s1, InputView::Stdout(text));
            let s3 = if r.insert_pattern {
                next(s2, InputView::PatternShown).0
            } else {
                s2
            };
            let (s4, a4) = next(s3, InputView::PatternShown);
            &&& s1.phase == Phase::Resyncing(r)
            &&& count_results(a1) == 0
            &&& s2.phase == if r.insert_pattern {
                Phase::ShowingInsertion(r)
            } else {
                Phase::ShowingPatch(r)
            }
            &&& s2.can_take_reading
            &&& count_results(a2) == 0
            &&& s3.phase == Phase::ShowingPatch(r)
            &&& s4.phase == Phase::AwaitingResult(r)
            &&& a4 == seq![
                ActionView::StartTimer(Timer::Measurement, MEASUREMENT_TIMEOUT_MS),
                ActionView::WriteStdin(Keys::Trigger),
            ]
        }),
{
    let (s1, a1) = next(s, InputView::Command(SpotreadCmd::DoReading(r)));
    assert(s.queue.push(SpotreadCmd::DoReading(r)).drop_first() =~= s.queue);
    assert(s1.read_buf + text =~= text);
    let (s2, a2) = next(s1, InputView::Stdout(text));
    lemma_count_small(a1);
    lemma_count_small(a2);
}

/// A reading asked for while the handshake still runs, before any prompt has
/// been seen, waits for its turn and is taken up as soon as the first prompt
/// has come.
pub proof fn lemma_reading_before_handshake(s: DriverView, r: ReadingRequest, text: Seq<u8>)
    requires
        s.phase == Phase::AwaitingPrompt,
        s.queue.len() == 0,
        ends_with_prompt(s.read_buf + text),
    ensures
        ({
            let (s1, a1) = next(s, InputView::Command(SpotreadCmd::DoReading(r)));
            let (s2, a2) = next(s1, InputView::Stdout(text));
            &&& s1.phase == Phase::AwaitingPrompt
            &&& a1.len() == 0
            &&& stage_of(s2.phase) == Stage::Measuring
            &&& a2[0] == ActionView::Emit(EventView::ProcessStarted(true))
            &&& a2[1] is ShowPattern
            &&& s2.queue.len() == 0
        }),
{
    let (s1, a1) = next(s, InputView::Command(SpotreadCmd::DoReading(r)));
    assert(s1.queue =~= seq![SpotreadCmd::DoReading(r)]);
    assert(s1.queue.drop_first() =~= Seq::<SpotreadCmd>::empty());
}

/// A fatal diagnostic on standard error, while the handshake runs, while the
/// driver is idle or while it measures, ends the work on the process: its
/// exit is awaited, nothing is written to it, and no measurement result goes out.
pub proof fn lemma_diagnostic_forces_exit(s: DriverView, line: Seq<u8>)
    requires
        is_fatal(line),
        stage_of(s.phase) == Stage::AwaitingHandshake || stage_of(s.phase) == Stage::Idle
            || stage_of(s.phase) == Stage::Measuring,
    ensures
        ({
            let (s1, a1) = next(s, InputView::Stderr(line));
            &&& s1.phase == Phase::AwaitingExit
            &&& a1.last() == ActionView::WaitForExit
            &&& forall|i: int| 0 <= i < a1.len() ==> !is_result(a1[i]) && !is_write(a1[i])
        }),
{
}

/// Once the exit of the process is awaited, nothing brings a measurement
/// result out of the driver any more, and nothing is written to the process.
pub proof fn lemma_silent_once_exit_awaited(s: DriverView, input: InputView)
    requires
        s.phase == Phase::AwaitingExit || s.phase == Phase::Terminated,
    ensures
        ({
            let (s1, a1) = next(s, input);
            &&& s1.phase == Phase::AwaitingExit || s1.phase == Phase::Terminated
            &&& forall|i: int| 0 <= i < a1.len() ==> !is_result(a1[i]) && !is_write(a1[i])
        }),
{
}

/// When the awaited exit comes, the driver is done and says so: that the
/// process is no longer started, and that it has stopped.
pub proof fn lemma_exit_is_announced(s: DriverView, ok: bool)
    requires
        s.phase == Phase::AwaitingExit,
    ensures
        ({
            let (s1, a1) = next(s, InputView::Exited(ok));
            &&& s1.phase == Phase::Terminated
            &&& s1.exit_ok == Some(ok)
            &&& a1 == seq![
                ActionView::Emit(EventView::ProcessStarted(false)),
                ActionView::Emit(EventView::ProcessStopped),
            ]
        }),
{
    let (s1, a1) = next(s, InputView::Exited(ok));
    assert(a1 =~= seq![
        ActionView::Emit(EventView::ProcessStarted(false)),
        ActionView::Emit(EventView::ProcessStopped),
    ]);
}

/// A measurement result goes out only while a measurement runs, and one
/// happening brings out at most one.
pub proof fn lemma_results_answer_requests(s: DriverView, input: InputView)
    ensures
        count_results(next(s, input).1) <= 1,
        count_results(next(s, input).1) == 1 ==> stage_of(s.phase) == Stage::Measuring,
{
    let a = next(s, input).1;
    lemma_count_small(a);
}

/// A command that comes while a measurement runs does not interrupt it: it
/// is put behind the commands that already wait, and nothing else changes.
pub proof fn lemma_commands_wait_their_turn(s: DriverView, cmd: SpotreadCmd)
    requires
        stage_of(s.phase) == Stage::Measuring,
    ensures
        next(s, InputView::Command(cmd)) == (
            DriverView { queue: s.queue.push(cmd), ..s },
            Seq::<ActionView>::empty(),
        ),
{
}

/// A driver that becomes idle takes up the command that has waited longest.
pub proof fn lemma_oldest_command_first(s: DriverView, done: Seq<ActionView>)
    requires
        s.queue.len() > 0,
    ensures
        to_idle(s, done).0.queue == s.queue.drop_first(),
        to_idle(s, done).0 == begin(
            DriverView { phase: Phase::Idle, queue: s.queue.drop_first(), ..s },
            s.queue[0],
        ).0,
{
}

/// The number of results among at most four actions, written out.
proof fn lemma_count_small(a: Seq<ActionView>)
    requires
        a.len() <= 4,
    ensures
        a.len() == 0 ==> count_results(a) == 0,
        a.len() == 1 ==> count_results(a) == if is_result(a[0]) { 1nat } else { 0nat },
        a.len() == 2 ==> count_results(a) == (if is_result(a[0]) { 1nat } else { 0nat }) + (if is_result(a[1]) { 1nat } else { 0nat }),
        a.len() == 3 ==> count_results(a) == (if is_result(a[0]) { 1nat } else { 0nat }) + (if is_result(a[1]) { 1nat } else { 0nat }) + (if is_result(a[2]) { 1nat } else { 0nat }),
        a.len() == 4 ==> count_results(a) == (if is_result(a[0]) { 1nat } else { 0nat }) + (if is_result(a[1]) { 1nat } else { 0nat }) + (if is_result(a[2]) { 1nat } else { 0nat }) + (if is_result(a[3]) { 1nat } else { 0nat }),
    decreases a.len(),
{
    if a.len() > 0 {
        lemma_count_small(a.drop_last());
    }
}

} // verus!
