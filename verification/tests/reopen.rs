use degen_radio::{
    open_sink, reopen_due, Call, Command, LocalPlayer, OpenReply, Opened, PlayerError, Recovery,
    Reopen, DEVICE_OPEN_TIMEOUT, DEVICE_REOPEN_ATTEMPTS, DEVICE_REOPEN_RETRY_AFTER,
};
use std::time::Duration;

fn named(name: &str) -> Result<Opened, PlayerError> {
    Ok(Opened { device_name: Some(name.to_string()) })
}

fn player_on(name: &str) -> LocalPlayer {
    LocalPlayer::new(named(name)).unwrap().0
}

/// One tick of the driver, with an attempt that ends as `opened` says.
fn tick(
    player: &mut LocalPlayer,
    now: u128,
    opened: Result<Opened, PlayerError>,
) -> (Reopen, Vec<Command>) {
    match player.recover_device(now) {
        Recovery::Settled(outcome) => (outcome, Vec::new()),
        Recovery::Attempt { number } => player.recovery_ended(number, opened),
    }
}

fn failing_tick(player: &mut LocalPlayer, now: u128) -> Reopen {
    let (outcome, commands) = tick(player, now, Err(PlayerError::NoOutputDevice));
    assert!(commands.is_empty());
    outcome
}

#[test]
fn the_first_reopen_is_due_at_once() {
    assert!(reopen_due(0, None));
}

#[test]
fn reopens_are_spaced_out() {
    assert!(!reopen_due(1, Some(DEVICE_REOPEN_RETRY_AFTER / 2)));
    assert!(reopen_due(1, Some(DEVICE_REOPEN_RETRY_AFTER)));
}

#[test]
fn reopens_stop_after_the_attempt_budget() {
    let long_ago = Some(Duration::from_secs(60).as_nanos());
    assert!(reopen_due(DEVICE_REOPEN_ATTEMPTS - 1, long_ago));
    assert!(!reopen_due(DEVICE_REOPEN_ATTEMPTS, long_ago));
}

#[test]
fn one_nanosecond_short_of_the_spacing_is_too_early() {
    assert!(!reopen_due(1, Some(DEVICE_REOPEN_RETRY_AFTER - 1)));
    assert!(reopen_due(0, Some(DEVICE_REOPEN_RETRY_AFTER)));
    assert!(!reopen_due(0, Some(0)));
    assert!(!reopen_due(u8::MAX, None));
}

#[test]
fn the_limits_are_the_documented_ones() {
    assert_eq!(DEVICE_REOPEN_RETRY_AFTER, Duration::from_secs(2).as_nanos());
    assert_eq!(DEVICE_OPEN_TIMEOUT, Duration::from_secs(5).as_nanos());
    assert_eq!(degen_radio::DEVICE_CHECK_INTERVAL, Duration::from_secs(1).as_nanos());
    assert_eq!(degen_radio::AUDIO_THREAD_POLL, Duration::from_secs(3).as_nanos());
    assert_eq!(degen_radio::AUDIO_THREAD_CEILING, Duration::from_secs(90).as_nanos());
    assert_eq!(DEVICE_REOPEN_ATTEMPTS, 5);
}

#[test]
fn a_device_that_never_comes_back_is_given_up_on_once() {
    let mut player = player_on("speakers");
    let start = 7_000_000_000;
    let mut reports = Vec::new();
    for i in 0..8u128 {
        reports.push(failing_tick(&mut player, start + i * DEVICE_REOPEN_RETRY_AFTER));
    }
    assert_eq!(
        reports,
        vec![
            Reopen::Retrying,
            Reopen::Retrying,
            Reopen::Retrying,
            Reopen::Retrying,
            Reopen::GaveUp,
            Reopen::Waiting,
            Reopen::Waiting,
            Reopen::Waiting,
        ]
    );
    assert_eq!(player.recover_device(u128::MAX), Recovery::Settled(Reopen::Waiting));
}

#[test]
fn frequent_ticks_make_no_more_attempts() {
    let mut player = player_on("speakers");
    let mut attempts = 0;
    let mut gave_up = 0;
    for i in 0..600u128 {
        match failing_tick(&mut player, i * 50_000_000) {
            Reopen::Waiting => {}
            Reopen::GaveUp => {
                attempts += 1;
                gave_up += 1;
            }
            Reopen::Retrying => attempts += 1,
            Reopen::Reopened => unreachable!(),
        }
    }
    assert_eq!(attempts, 5);
    assert_eq!(gave_up, 1);
}

#[test]
fn attempts_are_counted_and_spaced() {
    let mut player = player_on("speakers");
    assert_eq!(player.recover_device(100), Recovery::Attempt { number: 1 });
    assert_eq!(
        player.recover_device(100 + DEVICE_REOPEN_RETRY_AFTER - 1),
        Recovery::Settled(Reopen::Waiting)
    );
    assert_eq!(
        player.recover_device(100 + DEVICE_REOPEN_RETRY_AFTER),
        Recovery::Attempt { number: 2 }
    );
    assert_eq!(player.recover_device(0), Recovery::Settled(Reopen::Waiting));
}

#[test]
fn a_recovery_starts_the_count_over() {
    let mut player = player_on("speakers");
    for i in 0..4u128 {
        assert_eq!(
            failing_tick(&mut player, i * DEVICE_REOPEN_RETRY_AFTER),
            Reopen::Retrying
        );
    }
    let (outcome, setup) = tick(
        &mut player,
        4 * DEVICE_REOPEN_RETRY_AFTER,
        named("headphones"),
    );
    assert_eq!(outcome, Reopen::Reopened);
    assert_eq!(
        setup,
        vec![
            Command { sink: 1, call: Call::Pause },
            Command { sink: 1, call: Call::SetVolume { gain: 10_000 } },
        ]
    );
    assert_eq!(
        player.recover_device(4 * DEVICE_REOPEN_RETRY_AFTER + 1),
        Recovery::Attempt { number: 1 }
    );
}

#[test]
fn a_failed_reopen_changes_nothing() {
    let mut player = player_on("speakers");
    player.resume();
    let error = player.reopen(Err(PlayerError::NoOutputDevice)).unwrap_err();
    assert_eq!(error.message(), "no audio output device available");
    assert_eq!(player.player(), 0);
    assert!(!player.is_paused());
}

#[test]
fn a_new_player_fails_as_the_opening_did() {
    let error = match LocalPlayer::new(Err(PlayerError::DeviceOpen { cause: "busy".to_string() })) {
        Ok(_) => panic!("there is no device"),
        Err(error) => error,
    };
    assert_eq!(error.message(), "opening default audio output device: busy");
}

#[test]
fn a_new_player_pauses_its_sink() {
    let (player, command) = LocalPlayer::new(named("speakers")).unwrap();
    assert_eq!(command, Command { sink: 0, call: Call::Pause });
    assert!(player.is_paused());
    assert!(player.is_finished());
    assert!(!player.device_removed());
    assert_eq!(player.stage_generation(), 0);
}

#[test]
fn opening_goes_through_its_steps() {
    let opened = open_sink(Some(Some("speakers".to_string())))
        .unwrap()
        .spawned(Ok(()))
        .unwrap()
        .replied(OpenReply::Connected)
        .unwrap();
    assert_eq!(opened.device_name.as_deref(), Some("speakers"));

    let nameless = open_sink(Some(None)).unwrap();
    assert_eq!(nameless.device_name, None);
}

#[test]
fn each_step_of_opening_fails_in_its_own_way() {
    let none = open_sink(None).err().unwrap();
    assert_eq!(none.message(), "no audio output device available");
    assert_eq!(none.cause(), None);

    let spawn = open_sink(Some(None))
        .unwrap()
        .spawned(Err("out of threads".to_string()))
        .err()
        .unwrap();
    assert_eq!(spawn.message(), "spawning local audio output thread");
    assert_eq!(spawn.cause(), Some("out of threads"));

    let silent = open_sink(Some(None))
        .unwrap()
        .spawned(Ok(()))
        .unwrap()
        .replied(OpenReply::Silence { cause: "timed out".to_string() })
        .err()
        .unwrap();
    assert_eq!(silent.message(), "local audio output thread did not open a device");
    assert_eq!(silent.cause(), Some("timed out"));

    let refused = open_sink(Some(None))
        .unwrap()
        .spawned(Ok(()))
        .unwrap()
        .replied(OpenReply::Refused { cause: "no such config".to_string() })
        .err()
        .unwrap();
    assert_eq!(
        refused.message(),
        "opening default audio output device: no such config"
    );
    assert_eq!(refused.cause(), None);
}
