use degen_radio::{
    Admission, Call, Command, DeviceProbe, LocalPlayer, Opened, PlayerError, StageStart,
    StreamFault, Wait, WaitEvent, WaitStep, Waiting, AUDIO_THREAD_CEILING, AUDIO_THREAD_POLL,
    DEVICE_CHECK_INTERVAL,
};

const START: u128 = 1_000_000_000_000;

fn player_on(name: Option<&str>) -> LocalPlayer {
    LocalPlayer::new(Ok(Opened { device_name: name.map(str::to_string) })).unwrap().0
}

fn reopen_on(player: &mut LocalPlayer, name: Option<&str>) -> Vec<Command> {
    player.reopen(Ok(Opened { device_name: name.map(str::to_string) })).unwrap()
}

/// Whether the device is lost, with `default` as the name of the default output.
fn lost(player: &mut LocalPlayer, default: Option<&str>, now: u128) -> bool {
    match player.device_lost(now) {
        DeviceProbe::Known { lost } => lost,
        DeviceProbe::ReadDefault { opened } => {
            player.default_output_read(opened, default.map(str::to_string), now)
        }
    }
}

/// A stop that is begun while `default` is the name of the default output.
fn stopping(player: &mut LocalPlayer, default: &str, now: u128) -> Waiting {
    lost(player, Some(default), now);
    match player.stop(now) {
        Admission::Granted { value } => value,
        answer => panic!("not granted: {answer:?}"),
    }
}

fn is_refused<T>(answer: Admission<T>) -> bool {
    matches!(answer, Admission::Refused { error: PlayerError::Disconnected })
}

fn is_refused_stage(start: StageStart) -> bool {
    matches!(start, StageStart::Refused { error: PlayerError::Disconnected })
}

/// Takes a wait through one poll.
fn poll(player: &mut LocalPlayer, wait: &Wait, default: Option<&str>, now: u128) -> WaitStep {
    match player.wait_event(wait, WaitEvent::PollElapsed, now) {
        WaitStep::ReadDefault { opened } => player.wait_event(
            wait,
            WaitEvent::DefaultOutput { opened, current: default.map(str::to_string) },
            now,
        ),
        step => step,
    }
}

#[test]
fn a_default_output_change_reads_as_a_lost_device() {
    let mut player = player_on(Some("speakers"));
    assert!(
        !lost(&mut player, Some("speakers"), START),
        "a sink freshly opened on the current default is not lost"
    );

    reopen_on(&mut player, Some("a device that went away"));
    assert!(
        lost(&mut player, Some("speakers"), START),
        "a default that moved is a lost device"
    );

    reopen_on(&mut player, None);
    assert!(
        !lost(&mut player, Some("speakers"), START),
        "an unreadable name is not evidence"
    );

    reopen_on(&mut player, Some("speakers"));
    assert!(
        !lost(&mut player, Some("speakers"), START),
        "reopen re-anchors the sink to the new default"
    );
}

#[test]
fn a_moved_default_refuses_the_calls_that_wait_on_the_audio_thread() {
    let mut player = player_on(Some("speakers"));
    // A read that is due is asked for first.
    for answer in [player.stop(START), player.seek(5, START)] {
        match answer {
            Admission::ReadDefault { opened } => assert_eq!(opened, "speakers"),
            answer => panic!("unexpected {answer:?}"),
        }
    }
    assert!(matches!(player.live_player(START), Admission::ReadDefault { .. }));

    assert!(lost(&mut player, Some("headphones"), START));
    assert!(!player.device_removed());
    assert!(is_refused(player.live_player(START)));
    assert!(is_refused(player.stop(START)));
    assert!(is_refused(player.seek(5, START)));
    assert!(is_refused_stage(player.play_file("a.wav".to_string(), START)));
    assert!(is_refused_stage(player.stage_file("a.wav".to_string(), START)));
    let stream = || LocalPlayer::prepare_stream(None, None).built(Ok(())).unwrap();
    assert!(is_refused_stage(player.play_prepared(stream(), START)));
    assert!(is_refused_stage(player.stage_prepared(stream(), START)));
    // Each of the stages counts as begun.
    assert_eq!(player.stage_generation(), 4);

    // The default comes back.
    let later = START + DEVICE_CHECK_INTERVAL;
    assert!(!lost(&mut player, Some("speakers"), later));
    assert!(matches!(player.live_player(later), Admission::Granted { value: 0 }));
}

#[test]
fn a_device_that_moved_during_a_wait_refuses_the_next_call() {
    let mut player = player_on(Some("speakers"));
    let waiting = stopping(&mut player, "speakers", START);
    let now = START + AUDIO_THREAD_POLL;
    assert!(matches!(
        poll(&mut player, &waiting.wait, Some("headphones"), now),
        WaitStep::GaveUp
    ));
    assert!(is_refused(player.stop(now)));
}

#[test]
fn no_default_at_all_is_not_evidence() {
    let mut player = player_on(Some("speakers"));
    assert!(!lost(&mut player, None, START));
}

#[test]
fn one_read_answers_for_the_interval() {
    let mut player = player_on(Some("speakers"));
    assert!(lost(&mut player, Some("headphones"), START));
    assert!(matches!(
        player.device_lost(START + DEVICE_CHECK_INTERVAL - 1),
        DeviceProbe::Known { lost: true }
    ));
    match player.device_lost(START + DEVICE_CHECK_INTERVAL) {
        DeviceProbe::ReadDefault { opened } => assert_eq!(opened, "speakers"),
        DeviceProbe::Known { .. } => panic!("the read is too old to answer"),
    }
}

#[test]
fn what_happens_in_between_does_not_make_a_read_due() {
    let mut player = player_on(Some("speakers"));
    let waiting = stopping(&mut player, "speakers", START);
    player.stop_ended(waiting, true);
    player.set_volume(30);
    player.resume();
    player.stream_fault(0, StreamFault::BufferUnderrun);
    assert!(matches!(
        player.play_file("a.wav".to_string(), START + 1),
        StageStart::Begun { .. }
    ));
    player.pause();
    player.look(0, true, true);
    let last = START + DEVICE_CHECK_INTERVAL - 1;
    assert!(matches!(player.device_lost(last), DeviceProbe::Known { lost: false }));
    assert!(matches!(player.seek(5, last), Admission::Granted { .. }));
    assert!(matches!(player.seek(5, last + 1), Admission::ReadDefault { .. }));
}

#[test]
fn a_swapped_sink_is_not_answered_from_the_old_read() {
    let mut player = player_on(Some("speakers"));
    assert!(lost(&mut player, Some("headphones"), START));
    reopen_on(&mut player, Some("headphones"));
    assert!(!lost(&mut player, Some("headphones"), START + 1));
    // A read that was under way for the old sink comes in late.
    assert!(player.default_output_read(
        "speakers".to_string(),
        Some("headphones".to_string()),
        START + 2
    ));
    assert!(!lost(&mut player, Some("headphones"), START + 3));
}

#[test]
fn only_a_removed_device_is_recorded() {
    let mut player = player_on(Some("speakers"));
    player.stream_fault(0, StreamFault::StreamInvalidated);
    player.stream_fault(0, StreamFault::BufferUnderrun);
    player.stream_fault(0, StreamFault::BackendSpecific);
    assert!(!player.device_removed());
    player.stream_fault(0, StreamFault::DeviceNotAvailable);
    assert!(player.device_removed());
    assert!(lost(&mut player, Some("speakers"), START));
}

#[test]
fn a_fault_of_a_replaced_sink_is_forgotten() {
    let mut player = player_on(Some("speakers"));
    reopen_on(&mut player, Some("speakers"));
    player.stream_fault(0, StreamFault::DeviceNotAvailable);
    assert!(!player.device_removed());
    player.stream_fault(1, StreamFault::DeviceNotAvailable);
    assert!(player.device_removed());
}

#[test]
fn a_lost_device_refuses_the_calls_that_wait_on_the_audio_thread() {
    let mut player = player_on(Some("speakers"));
    player.stream_fault(0, StreamFault::DeviceNotAvailable);
    assert!(lost(&mut player, Some("speakers"), START));

    assert!(
        is_refused_stage(player.play_file("sample.wav".to_string(), START)),
        "play_file should refuse a lost device"
    );
    assert!(
        is_refused(player.seek(1_000_000_000, START)),
        "seek should refuse a lost device"
    );
    assert!(is_refused(player.stop(START)));
    let refusal = match player.live_player(START) {
        Admission::Refused { error } => error,
        answer => panic!("unexpected {answer:?}"),
    };
    assert_eq!(refusal.message(), "audio output device disconnected");
    // Whatever else happens, only a new sink ends it.
    player.set_volume(10);
    player.resume();
    player.look(0, false, true);
    assert!(is_refused(player.live_player(START)));
    reopen_on(&mut player, Some("headphones"));
    assert!(!lost(&mut player, Some("headphones"), START));
    assert!(matches!(player.live_player(START), Admission::Granted { value: 1 }));
}

#[test]
fn a_wait_gives_up_as_soon_as_the_device_is_gone() {
    let mut player = player_on(Some("a device that went away"));
    let waiting = stopping(&mut player, "a device that went away", START);
    let step = poll(&mut player, &waiting.wait, Some("speakers"), START + AUDIO_THREAD_POLL);
    assert!(matches!(step, WaitStep::GaveUp), "the wait must give up, not block");
    assert!(!player.device_removed());
}

#[test]
fn a_wait_gives_up_when_the_sink_is_reopened_under_it() {
    let mut player = player_on(Some("speakers"));
    let waiting = stopping(&mut player, "speakers", START);
    reopen_on(&mut player, Some("speakers"));
    let step = poll(&mut player, &waiting.wait, Some("speakers"), START + AUDIO_THREAD_POLL);
    assert!(matches!(step, WaitStep::GaveUp), "a wait on a replaced sink must give up");
    assert!(
        !lost(&mut player, Some("speakers"), START + AUDIO_THREAD_POLL),
        "the ceiling must never be charged to the fresh sink"
    );
}

#[test]
fn the_ceiling_is_never_charged_to_a_fresh_sink() {
    let mut player = player_on(Some("speakers"));
    let waiting = stopping(&mut player, "speakers", START);
    let late = START + AUDIO_THREAD_CEILING;
    let opened = match player.wait_event(&waiting.wait, WaitEvent::PollElapsed, late) {
        WaitStep::ReadDefault { opened } => opened,
        step => panic!("unexpected {step:?}"),
    };
    reopen_on(&mut player, Some("speakers"));
    let step = player.wait_event(
        &waiting.wait,
        WaitEvent::DefaultOutput { opened, current: Some("speakers".to_string()) },
        late,
    );
    assert!(matches!(step, WaitStep::GaveUp));
    assert!(!player.device_removed());
}

#[test]
fn a_slow_source_is_waited_for_up_to_the_ceiling() {
    let mut player = player_on(Some("speakers"));
    assert!(!lost(&mut player, Some("speakers"), START));
    let waiting = match player.seek(5, START) {
        Admission::Granted { value } => value,
        answer => panic!("unexpected {answer:?}"),
    };
    assert_eq!(waiting.command, Command { sink: 0, call: Call::Seek { to: 5 } });
    assert_eq!(waiting.wait, Wait { sink: 0, started: START });
    let mut now = START;
    let mut kept = 0;
    loop {
        now += AUDIO_THREAD_POLL;
        match poll(&mut player, &waiting.wait, Some("speakers"), now) {
            WaitStep::KeepWaiting => kept += 1,
            WaitStep::GaveUp => break,
            step => panic!("unexpected {step:?}"),
        }
    }
    assert_eq!(kept, 29);
    assert_eq!(now, START + AUDIO_THREAD_CEILING);
    assert!(player.device_removed(), "an audio thread that does not answer is a loss");
}

#[test]
fn a_nameless_device_is_waited_for_too() {
    let mut player = player_on(None);
    let waiting = stopping(&mut player, "speakers", START);
    let last = START + AUDIO_THREAD_CEILING;
    let step = player.wait_event(&waiting.wait, WaitEvent::PollElapsed, last - 1);
    assert!(matches!(step, WaitStep::KeepWaiting));
    let step = player.wait_event(&waiting.wait, WaitEvent::PollElapsed, last);
    assert!(matches!(step, WaitStep::GaveUp));
    assert!(player.device_removed());
}

#[test]
fn an_answer_ends_a_wait() {
    let mut player = player_on(Some("speakers"));
    let waiting = stopping(&mut player, "speakers", START);
    let step = player.wait_event(&waiting.wait, WaitEvent::Answered, START + 1);
    assert!(matches!(step, WaitStep::Finished));
    let step = player.wait_event(&waiting.wait, WaitEvent::WorkerGone, START + 1);
    assert!(matches!(step, WaitStep::GaveUp));
}

#[test]
fn a_seek_ends_with_its_answer() {
    assert!(LocalPlayer::seek_ended(Some(Ok(()))).is_ok());
    let failed = LocalPlayer::seek_ended(Some(Err("not supported".to_string()))).unwrap_err();
    assert_eq!(failed.message(), "seeking local audio: not supported");
    let silent = LocalPlayer::seek_ended(None).unwrap_err();
    assert_eq!(silent.message(), "audio output device stopped responding");
    assert!(matches!(silent, PlayerError::NotResponding));
}
