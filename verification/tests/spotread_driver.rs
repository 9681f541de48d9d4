use pgen_client::spotread::driver::{
    Action, Driver, Event, Input, Keys, Phase, ReadingRequest, SpotreadCmd, Stage, StdoutMode,
    Timer,
};

fn request(id: u64) -> ReadingRequest {
    ReadingRequest { id, insert_pattern: false, insertion_ms: 0 }
}

fn ready_driver() -> Driver {
    let mut d = Driver::new();
    assert_eq!(d.stage(), Stage::Launching);
    assert!(d.step(Input::Spawned(true)).is_empty());
    assert_eq!(d.stage(), Stage::AwaitingHandshake);
    assert_eq!(d.stdout_mode(), StdoutMode::Lines);
    assert!(d.step(Input::Stdout(b"Connecting to the instrument ..\n")).is_empty());
    assert!(d.step(Input::Stdout(b"Place instrument on spot to be measured,\n")).is_empty());
    assert_eq!(d.phase, Phase::AwaitingPrompt);
    assert_eq!(d.stdout_mode(), StdoutMode::Chunks);
    assert!(d.step(Input::Stdout(b"and hit [A-Z] to read white,\n")).is_empty());
    let acts = d.step(Input::Stdout(b"or any other key to take a reading: "));
    assert_eq!(acts, vec![Action::Emit(Event::ProcessStarted(true))]);
    assert_eq!(d.stage(), Stage::Idle);
    assert!(d.can_take_reading);
    d
}

fn results(actions: &[Action]) -> Vec<Option<(u64, [f64; 3], [f64; 3])>> {
    let value = |b: &Vec<u8>| std::str::from_utf8(b).unwrap().parse::<f64>().unwrap();
    actions
        .iter()
        .filter_map(|a| match a {
            Action::Emit(Event::MeasurementResult(m)) => Some(m.as_ref().map(|m| {
                (
                    m.request,
                    [value(&m.xyz.first), value(&m.xyz.second), value(&m.xyz.third)],
                    [value(&m.lab.first), value(&m.lab.second), value(&m.lab.third)],
                )
            })),
            _ => None,
        })
        .collect()
}

#[test]
fn captured_output_gives_one_result() {
    let mut d = ready_driver();
    let mut all = Vec::new();
    all.extend(d.step(Input::Command(SpotreadCmd::DoReading(request(7)))));
    assert_eq!(d.phase, Phase::ShowingPatch(request(7)));
    all.extend(d.step(Input::PatternShown));
    assert_eq!(d.phase, Phase::AwaitingResult(request(7)));
    for line in [
        &b"\n"[..],
        b"\r\n",
        b" Result is XYZ: 5.509335 5.835576 5.835576, D50 Lab: 28.993788 -1.357676 -7.541553\n",
    ] {
        all.extend(d.step(Input::Stdout(line)));
    }
    assert_eq!(
        all,
        vec![
            Action::ShowPattern { request: 7, inserted: false, hold_ms: 500 },
            Action::StartTimer(Timer::Measurement, 30000),
            Action::WriteStdin(Keys::Trigger),
            Action::CancelTimer(Timer::Measurement),
            Action::Emit(Event::MeasurementResult(Some(
                pgen_client::spotread::driver::Measurement {
                    request: 7,
                    xyz: pgen_client::spotread::driver::Literals {
                        first: b"5.509335".to_vec(),
                        second: b"5.835576".to_vec(),
                        third: b"5.835576".to_vec(),
                    },
                    lab: pgen_client::spotread::driver::Literals {
                        first: b"28.993788".to_vec(),
                        second: b"-1.357676".to_vec(),
                        third: b"-7.541553".to_vec(),
                    },
                }
            ))),
        ]
    );
    let found = results(&all);
    assert_eq!(found.len(), 1);
    let (id, xyz, lab) = found[0].unwrap();
    assert_eq!(id, 7);
    assert_eq!(xyz, [5.509335, 5.835576, 5.835576]);
    assert_eq!(lab, [28.993788, -1.357676, -7.541553]);

    // The chromaticity that belongs to this reading, to six places.
    let sum = xyz[0] + xyz[1] + xyz[2];
    let round = |v: f64| (v * 1e6).round() / 1e6;
    assert_eq!(
        [round(xyz[0] / sum), round(xyz[1] / sum), round(xyz[1])],
        [0.320674, 0.339663, 5.835576]
    );

    assert_eq!(d.stage(), Stage::Idle);
    assert!(!d.can_take_reading);
}

#[test]
fn reading_before_prompt_resyncs() {
    let mut d = ready_driver();
    // one reading uses the prompt up
    d.step(Input::Command(SpotreadCmd::DoReading(request(1))));
    d.step(Input::PatternShown);
    d.step(Input::Stdout(b"Result is XYZ: 1.0 2.0 3.0, D50 Lab: 4.0 5.0 6.0\n"));
    assert_eq!(d.stage(), Stage::Idle);
    assert!(!d.can_take_reading);

    let acts = d.step(Input::Command(SpotreadCmd::DoReading(request(2))));
    assert_eq!(acts, vec![Action::StartTimer(Timer::Measurement, 30000)]);
    assert_eq!(d.phase, Phase::Resyncing(request(2)));
    assert_eq!(d.stdout_mode(), StdoutMode::Chunks);
    assert!(d.step(Input::Stdout(b"\nPlace instrument on spot to be measured,\nand hit any key to take ")).is_empty());
    let acts = d.step(Input::Stdout(b"a reading:\n"));
    assert_eq!(
        acts,
        vec![
            Action::CancelTimer(Timer::Measurement),
            Action::ShowPattern { request: 2, inserted: false, hold_ms: 500 },
        ]
    );
    assert!(d.can_take_reading);
    let acts = d.step(Input::PatternShown);
    assert_eq!(
        acts,
        vec![Action::StartTimer(Timer::Measurement, 30000), Action::WriteStdin(Keys::Trigger)]
    );
    let acts = d.step(Input::Stdout(b"Result is XYZ: 1.5 2.5 3.5, D50 Lab: 4.5 5.5 6.5\n"));
    assert_eq!(results(&acts), vec![Some((2, [1.5, 2.5, 3.5], [4.5, 5.5, 6.5]))]);
}

#[test]
fn inserted_pattern_comes_before_the_patch() {
    let mut d = ready_driver();
    let r = ReadingRequest { id: 3, insert_pattern: true, insertion_ms: 2000 };
    let acts = d.step(Input::Command(SpotreadCmd::DoReading(r)));
    assert_eq!(acts, vec![Action::ShowPattern { request: 3, inserted: true, hold_ms: 2000 }]);
    let acts = d.step(Input::PatternShown);
    assert_eq!(acts, vec![Action::ShowPattern { request: 3, inserted: false, hold_ms: 1500 }]);
    let acts = d.step(Input::PatternShown);
    assert_eq!(
        acts,
        vec![Action::StartTimer(Timer::Measurement, 30000), Action::WriteStdin(Keys::Trigger)]
    );
}

#[test]
fn diagnostic_ends_every_live_state() {
    // during the handshake
    let mut d = Driver::new();
    d.step(Input::Spawned(true));
    let acts = d.step(Input::Stderr(b"Diagnostic: Instrument Access Failed"));
    assert_eq!(acts, vec![Action::WaitForExit]);
    assert_eq!(d.stage(), Stage::Exiting);
    let acts = d.step(Input::Exited(false));
    assert_eq!(
        acts,
        vec![Action::Emit(Event::ProcessStarted(false)), Action::Emit(Event::ProcessStopped)]
    );
    assert_eq!(d.stage(), Stage::Terminated);
    assert_eq!(d.exit_ok, Some(false));

    // while idle
    let mut d = ready_driver();
    assert_eq!(d.step(Input::Stderr(b"Diagnostic: gone")), vec![Action::WaitForExit]);
    assert_eq!(d.phase, Phase::AwaitingExit);

    // while measuring: the timer is stopped and no result goes out, then or later
    let mut d = ready_driver();
    d.step(Input::Command(SpotreadCmd::DoReading(request(9))));
    d.step(Input::PatternShown);
    let acts = d.step(Input::Stderr(b"Diagnostic: gone"));
    assert_eq!(acts, vec![Action::CancelTimer(Timer::Measurement), Action::WaitForExit]);
    let late = d.step(Input::Stdout(b"Result is XYZ: 1.0 2.0 3.0, D50 Lab: 4.0 5.0 6.0\n"));
    assert!(late.is_empty());
    assert!(d.step(Input::TimerFired(Timer::Measurement)).is_empty());
    let acts = d.step(Input::Exited(true));
    assert!(results(&acts).is_empty());
    assert_eq!(d.stage(), Stage::Terminated);

    // other lines on standard error change nothing
    let mut d = ready_driver();
    assert!(d.step(Input::Stderr(b"warning: something")).is_empty());
    assert_eq!(d.stage(), Stage::Idle);
}

#[test]
fn failures_give_an_empty_result_and_keep_the_process() {
    for line in [&b"Spot read failed due to misread\n"[..], b"Result is XYZ: 1.0 2.0\n"] {
        let mut d = ready_driver();
        d.step(Input::Command(SpotreadCmd::DoReading(request(4))));
        d.step(Input::PatternShown);
        assert!(d.step(Input::Stdout(b"some chatter\n")).is_empty());
        let acts = d.step(Input::Stdout(line));
        assert_eq!(
            acts,
            vec![
                Action::CancelTimer(Timer::Measurement),
                Action::Emit(Event::MeasurementResult(None)),
            ]
        );
        assert_eq!(d.stage(), Stage::Idle);
        assert!(d.can_take_reading);
    }

    // the timeout abandons the wait, not the process
    let mut d = ready_driver();
    d.step(Input::Command(SpotreadCmd::DoReading(request(5))));
    d.step(Input::PatternShown);
    let acts = d.step(Input::TimerFired(Timer::Measurement));
    assert_eq!(acts, vec![Action::Emit(Event::MeasurementResult(None))]);
    assert_eq!(d.stage(), Stage::Idle);
    assert!(d.is_live());
}

#[test]
fn commands_are_taken_oldest_first() {
    let mut d = ready_driver();
    d.step(Input::Command(SpotreadCmd::DoReading(request(1))));
    assert!(d.step(Input::Command(SpotreadCmd::DoReading(request(2)))).is_empty());
    assert!(d.step(Input::Command(SpotreadCmd::Exit)).is_empty());
    assert_eq!(d.queue, vec![SpotreadCmd::DoReading(request(2)), SpotreadCmd::Exit]);
    d.step(Input::PatternShown);
    let acts = d.step(Input::Stdout(b"Result is XYZ: 1.0 2.0 3.0, D50 Lab: 4.0 5.0 6.0\n"));
    assert_eq!(results(&acts).len(), 1);
    // the second reading is taken up at once and has to see the prompt again
    assert_eq!(d.phase, Phase::Resyncing(request(2)));
    assert_eq!(d.queue, vec![SpotreadCmd::Exit]);
    d.step(Input::Stdout(b"take a reading:"));
    d.step(Input::PatternShown);
    let acts = d.step(Input::Stdout(b"Spot read failed\n"));
    assert_eq!(results(&acts), vec![None]);
    // the exit follows: the prompt is still good after a failure
    assert_eq!(d.phase, Phase::QuitPausing);
    assert!(acts.contains(&Action::WriteStdin(Keys::Quit)));
    assert!(d.queue.is_empty());
}

#[test]
fn graceful_exit_sends_quit_twice() {
    let mut d = ready_driver();
    let acts = d.step(Input::Command(SpotreadCmd::Exit));
    assert_eq!(
        acts,
        vec![Action::WriteStdin(Keys::Quit), Action::StartTimer(Timer::QuitPause, 500)]
    );
    assert_eq!(d.stage(), Stage::Exiting);
    assert!(d.step(Input::Command(SpotreadCmd::DoReading(request(1)))).is_empty());
    assert!(d.queue.is_empty());
    let acts = d.step(Input::TimerFired(Timer::QuitPause));
    assert_eq!(acts, vec![Action::WriteStdin(Keys::Quit), Action::WaitForExit]);
    let acts = d.step(Input::Exited(false));
    assert_eq!(
        acts,
        vec![Action::Emit(Event::ProcessStarted(false)), Action::Emit(Event::ProcessStopped)]
    );
    assert_eq!(d.exit_ok, Some(false));
    assert!(d.step(Input::Exited(true)).is_empty());
}

#[test]
fn handshake_backs_off_after_a_failed_read() {
    let mut d = Driver::new();
    let acts = d.step(Input::Spawned(false));
    assert_eq!(acts, vec![Action::Emit(Event::ProcessStarted(false))]);
    assert_eq!(d.stage(), Stage::Terminated);

    let mut d = Driver::new();
    d.step(Input::Spawned(true));
    let acts = d.step(Input::StdoutFailed);
    assert_eq!(acts, vec![Action::StartTimer(Timer::Backoff, 1000)]);
    assert_eq!(d.phase, Phase::BackingOff(false));
    assert_eq!(d.stdout_mode(), StdoutMode::Leave);
    assert!(d.step(Input::TimerFired(Timer::Measurement)).is_empty());
    assert!(d.step(Input::TimerFired(Timer::Backoff)).is_empty());
    assert_eq!(d.phase, Phase::AwaitingBanner);
}
