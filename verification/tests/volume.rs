use degen_radio::{volume_gain, Call, Command, LocalPlayer, Opened, StageStart, FULL_GAIN};

fn gain(percent: u8) -> f32 {
    f32::from(volume_gain(percent)) / f32::from(FULL_GAIN)
}

#[test]
fn volume_gain_uses_a_square_law_curve() {
    assert_eq!(gain(0), 0.0);
    assert_eq!(gain(100), 1.0);
    assert_eq!(gain(150), 1.0);
    assert_eq!(gain(50), 0.25);
    assert!((gain(80) - 0.64).abs() < f32::EPSILON);
    assert!(gain(20) < gain(50) && gain(50) < gain(80));
}

#[test]
fn gains_are_exact_squares() {
    assert_eq!(volume_gain(0), 0);
    assert_eq!(volume_gain(1), 1);
    assert_eq!(volume_gain(40), 1_600);
    assert_eq!(volume_gain(99), 9_801);
    assert_eq!(volume_gain(100), FULL_GAIN);
    assert_eq!(volume_gain(101), FULL_GAIN);
    assert_eq!(volume_gain(255), FULL_GAIN);
}

#[test]
fn the_curve_never_falls() {
    for percent in 0..255u8 {
        assert!(volume_gain(percent) <= volume_gain(percent + 1));
        if percent < 100 {
            assert!(volume_gain(percent) < volume_gain(percent + 1));
        }
    }
    assert!(volume_gain(99) < volume_gain(150));
}

#[test]
fn setting_the_volume_commands_the_current_sink() {
    let (mut player, _) = LocalPlayer::new(Ok(Opened { device_name: None })).unwrap();
    assert_eq!(
        player.set_volume(50),
        Command { sink: 0, call: Call::SetVolume { gain: 2_500 } }
    );
    assert_eq!(
        player.set_volume(150),
        Command { sink: 0, call: Call::SetVolume { gain: 10_000 } }
    );
}

#[test]
fn staging_leaves_the_volume_alone() {
    let (mut player, _) = LocalPlayer::new(Ok(Opened { device_name: None })).unwrap();
    player.set_volume(30);
    assert!(matches!(
        player.stage_file("a.mp3".to_string(), 0),
        StageStart::Begun { .. }
    ));
    player.pause();
    let setup = player.reopen(Ok(Opened { device_name: None })).unwrap();
    assert_eq!(setup[1].call, Call::SetVolume { gain: 900 });
}
