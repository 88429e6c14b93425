use degen_radio::{
    Admission, Call, Cleared, Command, DeviceProbe, FileOutcome, LocalPlayer, NextStep, Opened,
    PlayerError, PreparedStream, Ready, Stage, StageStart, StreamFault, Waiting,
};

/// A player on a device without a readable name, which needs no read of the default
/// output.
fn player() -> LocalPlayer {
    LocalPlayer::new(Ok(Opened { device_name: None })).unwrap().0
}

fn reopen(player: &mut LocalPlayer) {
    player.reopen(Ok(Opened { device_name: None })).unwrap();
}

fn begun(start: StageStart) -> Stage {
    match start {
        StageStart::Begun { stage } => stage,
        start => panic!("not admitted: {start:?}"),
    }
}

fn refused(start: StageStart) -> PlayerError {
    match start {
        StageStart::Refused { error } => error,
        start => panic!("not refused: {start:?}"),
    }
}

fn stopping(player: &LocalPlayer, now: u128) -> Waiting {
    match player.stop(now) {
        Admission::Granted { value } => value,
        answer => panic!("not granted: {answer:?}"),
    }
}

fn clear(player: &mut LocalPlayer, stage: Stage) -> Result<Cleared, PlayerError> {
    let clearing = player.clear_for_stage(stage, 0)?;
    player.stage_cleared(clearing, true)
}

fn decode(cleared: Cleared) -> Ready {
    match cleared.next_step() {
        NextStep::DecodeFile { file } => file.decoded(FileOutcome::Decoded).unwrap(),
        NextStep::Append { ready } => ready,
    }
}

fn append(player: &mut LocalPlayer, ready: Ready) -> Result<Option<Command>, PlayerError> {
    let (staged, _) = player.append_for_stage(ready)?;
    Ok(player.stage_done(staged))
}

fn stage(player: &mut LocalPlayer, path: &str) {
    let stage = begun(player.stage_file(path.to_string(), 0));
    let cleared = clear(player, stage).unwrap();
    assert_eq!(append(player, decode(cleared)).unwrap(), None);
}

fn play(player: &mut LocalPlayer, path: &str) {
    let stage = begun(player.play_file(path.to_string(), 0));
    let cleared = clear(player, stage).unwrap();
    let sink = player.player();
    assert_eq!(
        append(player, decode(cleared)).unwrap(),
        Some(Command { sink, call: Call::Play })
    );
}

/// Whether the device is lost, with `default` as the name of the default output.
fn lost(player: &mut LocalPlayer, default: &str, now: u128) -> bool {
    match player.device_lost(now) {
        DeviceProbe::Known { lost } => lost,
        DeviceProbe::ReadDefault { opened } => {
            player.default_output_read(opened, Some(default.to_string()), now)
        }
    }
}

fn stream(byte_len: Option<u64>) -> PreparedStream {
    LocalPlayer::prepare_stream(Some("audio/mpeg"), byte_len).built(Ok(())).unwrap()
}

#[test]
fn a_played_file_runs_and_stops() {
    let mut player = player();
    play(&mut player, "sample.wav");
    assert!(!player.is_paused(), "playback should be running after play_file");
    assert!(!player.is_finished(), "a freshly started track should not be finished");

    assert_eq!(player.pause(), Command { sink: 0, call: Call::Pause });
    assert!(player.is_paused(), "pause should take effect");
    assert_eq!(player.resume(), Command { sink: 0, call: Call::Play });
    assert!(!player.is_paused());

    let waiting = stopping(&player, 5);
    assert_eq!(waiting.command, Command { sink: 0, call: Call::Clear { through: 1 } });
    player.stop_ended(waiting, true);
    assert!(
        player.is_finished(),
        "stop should clear the source so the sink reports finished"
    );
    assert!(player.is_paused());
}

#[test]
fn a_stop_without_an_answer_changes_nothing() {
    let mut player = player();
    play(&mut player, "sample.wav");
    let waiting = stopping(&player, 5);
    player.stop_ended(waiting, false);
    assert!(!player.is_finished());
    assert!(!player.is_paused());
}

#[test]
fn a_stop_of_a_replaced_sink_spares_the_new_one() {
    let mut player = player();
    let waiting = stopping(&player, 5);
    reopen(&mut player);
    play(&mut player, "sample.wav");
    player.stop_ended(waiting, true);
    assert!(!player.is_finished());
}

#[test]
fn a_staged_file_waits_paused() {
    let mut player = player();
    play(&mut player, "one.wav");
    stage(&mut player, "two.wav");
    assert!(player.is_paused());
    assert!(!player.is_finished());
}

#[test]
fn the_steps_of_a_stage_carry_its_numbers() {
    let mut player = player();
    let stage = begun(player.stage_file("a.flac".to_string(), 0));
    assert_eq!(player.stage_generation(), 1);
    let clearing = player.clear_for_stage(stage, 77).unwrap();
    let waiting = clearing.waiting();
    assert_eq!(waiting.command, Command { sink: 0, call: Call::Clear { through: 0 } });
    assert_eq!((waiting.wait.sink, waiting.wait.started), (0, 77));
    let cleared = player.stage_cleared(clearing, true).unwrap();
    assert!(player.is_finished() && player.is_paused());
    let file = match cleared.next_step() {
        NextStep::DecodeFile { file } => file,
        NextStep::Append { .. } => panic!("a file is decoded first"),
    };
    assert_eq!(file.path(), "a.flac");
    let ready = file.decoded(FileOutcome::Decoded).unwrap();
    let (staged, command) = player.append_for_stage(ready).unwrap();
    assert_eq!(command, Command { sink: 0, call: Call::Append { stage: 1 } });
    assert_eq!(player.stage_done(staged), None);
    assert_eq!(player.stage_generation(), 1);
}

#[test]
fn a_stage_asks_for_a_read_that_is_due_and_goes_on_after_it() {
    let named = || Ok(Opened { device_name: Some("speakers".to_string()) });
    let (mut player, _) = LocalPlayer::new(named()).unwrap();
    let (opened, pending) = match player.play_file("one.wav".to_string(), 0) {
        StageStart::ReadDefault { opened, pending } => (opened, pending),
        start => panic!("unexpected {start:?}"),
    };
    assert_eq!(opened, "speakers");
    assert_eq!(player.stage_generation(), 1, "the stage counts as begun");
    assert!(!player.default_output_read(opened, Some("speakers".to_string()), 0));
    let stage = begun(player.admit_stage(pending, 0));
    assert_eq!(player.stage_generation(), 1, "and is counted once");
    let cleared = clear(&mut player, stage).unwrap();
    let sink = player.player();
    assert_eq!(
        append(&mut player, decode(cleared)).unwrap(),
        Some(Command { sink, call: Call::Play })
    );
}

#[test]
fn a_stage_is_refused_where_its_read_shows_a_moved_default() {
    let named = || Ok(Opened { device_name: Some("speakers".to_string()) });
    let (mut player, _) = LocalPlayer::new(named()).unwrap();
    let (opened, pending) = match player.stage_prepared(stream(None), 0) {
        StageStart::ReadDefault { opened, pending } => (opened, pending),
        start => panic!("unexpected {start:?}"),
    };
    assert!(player.default_output_read(opened, Some("headphones".to_string()), 0));
    let gone = refused(player.admit_stage(pending, 0));
    assert_eq!(gone.message(), "audio output device disconnected");
}

#[test]
fn a_pending_stage_is_admitted_to_the_sink_of_that_time() {
    let named = |name: &str| Ok(Opened { device_name: Some(name.to_string()) });
    let (mut player, _) = LocalPlayer::new(named("speakers")).unwrap();
    let pending = match player.stage_file("one.wav".to_string(), 0) {
        StageStart::ReadDefault { pending, .. } => pending,
        start => panic!("unexpected {start:?}"),
    };
    player.reopen(named("headphones")).unwrap();
    let (opened, pending) = match player.admit_stage(pending, 0) {
        StageStart::ReadDefault { opened, pending } => (opened, pending),
        start => panic!("unexpected {start:?}"),
    };
    assert_eq!(opened, "headphones");
    assert!(!player.default_output_read(opened, Some("headphones".to_string()), 0));
    let stage = begun(player.admit_stage(pending, 0));
    let clearing = player.clear_for_stage(stage, 0).unwrap();
    assert_eq!(clearing.waiting().command.sink, 1);
}

#[test]
fn an_overtaken_stage_does_not_clear() {
    let mut player = player();
    let first = begun(player.play_file("one.wav".to_string(), 0));
    play(&mut player, "two.wav");
    let refused = player.clear_for_stage(first, 0).unwrap_err();
    assert_eq!(refused.message(), "superseded by a later track");
    assert!(!player.is_finished(), "the newer track stays");
    assert!(!player.is_paused());
}

#[test]
fn an_overtaken_stage_does_not_append() {
    let mut player = player();
    let first = begun(player.play_file("one.wav".to_string(), 0));
    let first = decode(clear(&mut player, first).unwrap());
    let second = begun(player.play_file("two.wav".to_string(), 0));
    let second = decode(clear(&mut player, second).unwrap());
    let refused = append(&mut player, first).unwrap_err();
    assert!(matches!(refused, PlayerError::Superseded));
    assert!(player.is_finished());
    assert!(append(&mut player, second).unwrap().is_some());
    assert!(!player.is_finished());
}

#[test]
fn a_refused_stage_overtakes_too() {
    let mut player = player();
    let first = begun(player.play_file("one.wav".to_string(), 0));
    let first = decode(clear(&mut player, first).unwrap());
    player.stream_fault(0, StreamFault::DeviceNotAvailable);
    let refused = refused(player.play_file("two.wav".to_string(), 0));
    assert!(matches!(refused, PlayerError::Disconnected));
    assert_eq!(player.stage_generation(), 2);
    assert!(matches!(append(&mut player, first), Err(PlayerError::Superseded)));
}

#[test]
fn a_later_stage_may_begin_during_a_clear() {
    let mut player = player();
    play(&mut player, "old.wav");
    let first = begun(player.play_file("one.wav".to_string(), 0));
    let clearing = player.clear_for_stage(first, 0).unwrap();
    let second = begun(player.play_file("two.wav".to_string(), 0));
    let first = decode(player.stage_cleared(clearing, true).unwrap());
    assert!(player.is_finished());
    assert!(append(&mut player, first).is_err());
    let second = decode(clear(&mut player, second).unwrap());
    assert!(append(&mut player, second).is_ok());
}

#[test]
fn a_stage_does_not_append_to_a_reopened_device() {
    let mut player = player();
    let stage = begun(player.play_file("one.wav".to_string(), 0));
    let ready = decode(clear(&mut player, stage).unwrap());
    reopen(&mut player);
    let refused = append(&mut player, ready).unwrap_err();
    assert_eq!(refused.message(), "audio output device changed");
    assert!(player.is_finished());
}

#[test]
fn a_changed_device_is_reported_before_a_later_track() {
    let mut player = player();
    let stage = begun(player.play_file("one.wav".to_string(), 0));
    let ready = decode(clear(&mut player, stage).unwrap());
    reopen(&mut player);
    player.begin_stage();
    assert!(matches!(append(&mut player, ready), Err(PlayerError::DeviceChanged)));
}

#[test]
fn a_clear_without_an_answer_ends_the_stage() {
    let mut player = player();
    play(&mut player, "old.wav");
    let stage = begun(player.stage_file("one.wav".to_string(), 0));
    let clearing = player.clear_for_stage(stage, 0).unwrap();
    let failed = player.stage_cleared(clearing, false).unwrap_err();
    assert_eq!(failed.message(), "audio output device stopped responding");
    assert!(!player.is_finished());
}

#[test]
fn a_bad_file_leaves_silence() {
    let mut player = player();
    play(&mut player, "old.wav");
    let stage = begun(player.play_file("missing.wav".to_string(), 0));
    let file = match clear(&mut player, stage).unwrap().next_step() {
        NextStep::DecodeFile { file } => file,
        NextStep::Append { .. } => panic!("a file is decoded first"),
    };
    assert_eq!(file.path(), "missing.wav");
    let outcome = FileOutcome::OpenFailed { cause: "not found".to_string() };
    let failed = file.decoded(outcome).unwrap_err();
    assert_eq!(failed.message(), "opening audio file missing.wav");
    assert_eq!(failed.cause(), Some("not found"));
    assert!(player.is_finished(), "the old track must not be audible any more");
}

#[test]
fn an_undecodable_file_is_named() {
    let mut player = player();
    let stage = begun(player.stage_file("noise.bin".to_string(), 0));
    let file = match clear(&mut player, stage).unwrap().next_step() {
        NextStep::DecodeFile { file } => file,
        NextStep::Append { .. } => panic!("a file is decoded first"),
    };
    let outcome = FileOutcome::DecodeFailed { cause: "no format".to_string() };
    let failed = file.decoded(outcome).unwrap_err();
    assert_eq!(failed.message(), "decoding audio file noise.bin");
    assert_eq!(failed.cause(), Some("no format"));
}

#[test]
fn a_stream_seeks_only_with_a_known_length() {
    let endless = LocalPlayer::prepare_stream(Some("audio/mpeg"), None);
    assert!(!endless.seekable);
    assert_eq!(endless.byte_len, None);
    assert_eq!(endless.mime_type.as_deref(), Some("audio/mpeg"));

    let finite = LocalPlayer::prepare_stream(None, Some(0));
    assert!(finite.seekable);
    assert_eq!(finite.byte_len, Some(0));
    assert_eq!(finite.mime_type, None);
}

#[test]
fn an_undecodable_stream_is_reported() {
    let failed = LocalPlayer::prepare_stream(None, None)
        .built(Err("unrecognized format".to_string()))
        .unwrap_err();
    assert_eq!(failed.message(), "decoding audio stream: unrecognized format");
    assert_eq!(failed.cause(), None);
}

#[test]
fn a_prepared_stream_is_appended_without_a_decode() {
    let mut player = player();
    let stage = begun(player.play_prepared(stream(None), 0));
    let ready = match clear(&mut player, stage).unwrap().next_step() {
        NextStep::Append { ready } => ready,
        NextStep::DecodeFile { .. } => panic!("a stream is decoded already"),
    };
    assert_eq!(
        append(&mut player, ready).unwrap(),
        Some(Command { sink: 0, call: Call::Play })
    );
    assert!(!player.is_paused());

    let stage = begun(player.stage_prepared(stream(Some(9)), 0));
    let cleared = clear(&mut player, stage).unwrap();
    assert_eq!(append(&mut player, decode(cleared)).unwrap(), None);
    assert!(player.is_paused());
}

#[test]
fn a_lost_device_refuses_streams() {
    let mut player = player();
    player.stream_fault(0, StreamFault::DeviceNotAvailable);
    let gone = refused(player.play_prepared(stream(None), 0));
    assert!(matches!(gone, PlayerError::Disconnected));
    let gone = refused(player.stage_prepared(stream(None), 0));
    assert!(matches!(gone, PlayerError::Disconnected));
    let gone = refused(player.stage_file("a.wav".to_string(), 0));
    assert!(matches!(gone, PlayerError::Disconnected));
}

#[test]
fn reopening_gives_a_live_empty_sink_at_the_same_volume() {
    let mut player = player();
    player.set_volume(40);
    play(&mut player, "sample.wav");
    player.stream_fault(0, StreamFault::DeviceNotAvailable);

    let setup = player
        .reopen(Ok(Opened { device_name: Some("speakers".to_string()) }))
        .expect("reopen on the default device");

    assert!(!lost(&mut player, "speakers", 0), "the fresh sink starts alive");
    assert!(!player.device_removed());
    assert!(player.is_finished(), "the fresh sink starts empty");
    assert!(player.is_paused(), "the fresh sink waits to be restaged");
    assert_eq!(
        setup,
        vec![
            Command { sink: 1, call: Call::Pause },
            Command { sink: 1, call: Call::SetVolume { gain: 1_600 } },
        ]
    );
    // And it is usable: the restage must land.
    play(&mut player, "sample.wav");
    assert!(!player.is_finished());
}

#[test]
fn a_track_that_played_out_is_finished() {
    let mut player = player();
    play(&mut player, "sample.wav");
    player.look(0, false, false);
    assert!(!player.is_finished());
    player.look(0, false, true);
    assert!(player.is_finished());
    assert!(!player.is_paused());
}

#[test]
fn a_look_decides_both_ways() {
    let mut player = player();
    assert!(player.is_finished());
    player.look(0, false, false);
    assert!(!player.is_finished());
    assert!(!player.is_paused());
    player.look(0, true, true);
    assert!(player.is_finished());
    assert!(player.is_paused());
}

#[test]
fn a_stop_spares_a_track_that_was_staged_since() {
    let mut player = player();
    play(&mut player, "one.wav");
    let waiting = stopping(&player, 5);
    stage(&mut player, "two.wav");
    player.stop_ended(waiting, true);
    assert!(!player.is_finished(), "the second track is still on the sink");
    player.look(0, true, false);
    assert!(!player.is_finished());

    // The stop of an empty sink spares one that had only begun by then.
    let mut player = self::player();
    let stage = begun(player.stage_file("one.wav".to_string(), 0));
    let ready = decode(clear(&mut player, stage).unwrap());
    let waiting = stopping(&player, 5);
    assert_eq!(waiting.command.call, Call::Clear { through: 0 });
    append(&mut player, ready).unwrap();
    player.stop_ended(waiting, true);
    assert!(!player.is_finished());
}

#[test]
fn a_stage_stays_paused_through_overlapping_ones() {
    let mut player = player();
    play(&mut player, "old.wav");
    let first = begun(player.stage_file("one.wav".to_string(), 0));
    let first = decode(clear(&mut player, first).unwrap());
    let second = begun(player.stage_file("two.wav".to_string(), 0));
    let second = decode(clear(&mut player, second).unwrap());
    player.set_volume(20);
    assert!(append(&mut player, first).is_err());
    assert_eq!(append(&mut player, second).unwrap(), None);
    assert!(player.is_paused());
    assert!(!player.is_finished());
}

#[test]
fn a_look_at_a_replaced_sink_says_nothing() {
    let mut player = player();
    reopen(&mut player);
    play(&mut player, "sample.wav");
    player.look(0, true, true);
    assert!(!player.is_finished());
    assert!(!player.is_paused());
    player.look(1, true, false);
    assert!(player.is_paused());
    assert!(!player.is_finished());
}
