//! What each call does, told from its arguments and its result alone.
//!
//! Every law here is about one call: it takes the arguments and what came back of
//! them, and says what the result is and what became of the player, field by field.
//! Where a call changes the player it also says which [`Happening`] that is, so that
//! the laws of [`history`](crate::history) hold of the calls.
use vstd::prelude::*;

use crate::device::{Admission, DeviceCheckView, DeviceProbe};
use crate::error::PlayerError;
use crate::history::Happening;
use crate::limits::{
    time_since, AUDIO_THREAD_CEILING, AUDIO_THREAD_POLL, DEVICE_CHECK_INTERVAL,
    DEVICE_OPEN_TIMEOUT, DEVICE_REOPEN_ATTEMPTS, DEVICE_REOPEN_RETRY_AFTER,
};
use crate::model::PlayerView;
use crate::open::{open_sink, Awaited, OpenReply, Opened, Picked};
use crate::player::LocalPlayer;
use crate::reopen::{reopen_due, Recovery, RecoveryView, Reopen};
use crate::sink::{queued_after, text_view, Call, Command, SinkView, StreamFault};
use crate::stage::{
    Cleared, Clearing, FileOutcome, FileStage, NextStep, PendingStage, Ready, Stage, StageStart,
    Staged, TrackSource,
};
use crate::stream::{DecoderPlan, PreparedStream};
use crate::volume::{law_curve_is_a_square, volume_gain, FULL_GAIN};
use crate::wait::{PollFinding, Wait, WaitEvent, WaitStep, Waiting};

verus! {

// ----------------------------------------------------------------------
// Which calls can be made
// ----------------------------------------------------------------------

/// A new player is valid, and every call can be made on a valid player, with any
/// arguments: a stage begins as long as stage numbers are left, and a clear or an append
/// of a stage is made while no clear is under way.
pub proof fn law_calls_can_be_made(
    opened: Result<Opened, PlayerError>,
    made: Result<(LocalPlayer, Command), PlayerError>,
    player: &mut LocalPlayer,
    sink: u64,
    fault: StreamFault,
    paused: bool,
    empty: bool,
    name: String,
    current: Option<String>,
    wait: &Wait,
    event: WaitEvent,
    attempt: u8,
    percent: u8,
    prepared: PreparedStream,
    stage: Stage,
    clearing: Clearing,
    ready: Ready,
    staged: Staged,
    waiting: Waiting,
    answered: bool,
    now: u128,
)
    requires
        call_ensures(LocalPlayer::new, (opened,), made),
        old(player)@.valid(),
        waiting.command.call is Clear,
    ensures
        call_requires(LocalPlayer::new, (opened,)),
        made matches Ok(fresh) ==> fresh.0@.valid(),
        call_requires(LocalPlayer::stream_fault, (player, sink, fault)),
        call_requires(LocalPlayer::look, (player, sink, paused, empty)),
        call_requires(LocalPlayer::default_output_read, (player, name, current, now)),
        call_requires(LocalPlayer::wait_event, (player, wait, event, now)),
        call_requires(LocalPlayer::reopen, (player, opened)),
        call_requires(LocalPlayer::recover_device, (player, now)),
        call_requires(LocalPlayer::recovery_ended, (player, attempt, opened)),
        call_requires(LocalPlayer::pause, (player,)),
        call_requires(LocalPlayer::resume, (player,)),
        call_requires(LocalPlayer::set_volume, (player, percent)),
        call_requires(LocalPlayer::stop_ended, (player, waiting, answered)),
        call_requires(LocalPlayer::stage_done, (player, staged)),
        call_requires(LocalPlayer::live_player, (&*old(player), now)),
        call_requires(LocalPlayer::device_lost, (&*old(player), now)),
        call_requires(LocalPlayer::stop, (&*old(player), now)),
        call_requires(LocalPlayer::seek, (&*old(player), now, now)),
        old(player)@.generation < u64::MAX ==> {
            &&& call_requires(LocalPlayer::begin_stage, (player,))
            &&& call_requires(LocalPlayer::play_file, (player, name, now))
            &&& call_requires(LocalPlayer::stage_file, (player, name, now))
            &&& call_requires(LocalPlayer::play_prepared, (player, prepared, now))
            &&& call_requires(LocalPlayer::stage_prepared, (player, prepared, now))
        },
        old(player)@.transition is None ==> {
            &&& call_requires(LocalPlayer::clear_for_stage, (player, stage, now))
            &&& call_requires(LocalPlayer::append_for_stage, (player, ready))
        },
        old(player)@.transition == Some(clearing@.stage.generation) ==> call_requires(
            LocalPlayer::stage_cleared,
            (player, clearing, answered),
        ),
{
}

// ----------------------------------------------------------------------
// Time, volume, errors
// ----------------------------------------------------------------------

/// The limits in seconds: a poll every three, a ceiling of ninety, five for a device
/// to open, one for which a read of the default output answers, and up to five
/// attempts to reopen, two seconds apart.
pub proof fn law_limits(second: int)
    requires
        second == 1_000_000_000,
    ensures
        AUDIO_THREAD_POLL == 3 * second,
        AUDIO_THREAD_CEILING == 90 * second,
        DEVICE_OPEN_TIMEOUT == 5 * second,
        DEVICE_CHECK_INTERVAL == second,
        DEVICE_REOPEN_RETRY_AFTER == 2 * second,
        DEVICE_REOPEN_ATTEMPTS == 5,
{
}

/// The time since an earlier reading added to it gives the later one; since a reading
/// that is still to come no time has passed.
pub proof fn law_time_since(since: u128, now: u128, passed: u128)
    requires
        call_ensures(time_since, (since, now), passed),
    ensures
        since <= now ==> since + passed == now,
        now <= since ==> passed == 0,
{
}

/// The gain is to the full gain as the square of the percent is to that of a hundred,
/// and full past a hundred.
pub proof fn law_volume_gain(percent: u8, gain: u16)
    requires
        call_ensures(volume_gain, (percent,), gain),
    ensures
        FULL_GAIN == 100 * 100,
        percent <= 100 ==> gain * (100 * 100) == FULL_GAIN * (percent * percent),
        percent >= 100 ==> gain == FULL_GAIN,
{
    law_curve_is_a_square(percent);
}

/// The text of an error names what failed, with the file or the cause at its end where
/// it is one sentence with them.
pub proof fn law_message(error: &PlayerError, message: String)
    requires
        call_ensures(PlayerError::message, (error,), message),
    ensures
        match *error {
            PlayerError::NoOutputDevice => message@ == "no audio output device available"@,
            PlayerError::AudioThreadSpawn { .. } => {
                message@ == "spawning local audio output thread"@
            },
            PlayerError::AudioThreadSilent { .. } => {
                message@ == "local audio output thread did not open a device"@
            },
            PlayerError::DeviceOpen { cause } => {
                message@ == "opening default audio output device: "@ + cause@
            },
            PlayerError::Disconnected => message@ == "audio output device disconnected"@,
            PlayerError::DeviceChanged => message@ == "audio output device changed"@,
            PlayerError::Superseded => message@ == "superseded by a later track"@,
            PlayerError::NotResponding => message@ == "audio output device stopped responding"@,
            PlayerError::FileOpen { path, .. } => message@ == "opening audio file "@ + path@,
            PlayerError::FileDecode { path, .. } => message@ == "decoding audio file "@ + path@,
            PlayerError::StreamDecode { cause } => message@ == "decoding audio stream: "@ + cause@,
            PlayerError::Seek { cause } => message@ == "seeking local audio: "@ + cause@,
        },
{
}

/// An error carries the one below it exactly where something outside failed first and
/// the text does not repeat it.
pub proof fn law_cause(error: &PlayerError, below: Option<&str>)
    requires
        call_ensures(PlayerError::cause, (error,), below),
    ensures
        match *error {
            PlayerError::AudioThreadSpawn { cause } => below is Some && below->0@ == cause@,
            PlayerError::AudioThreadSilent { cause } => below is Some && below->0@ == cause@,
            PlayerError::FileOpen { cause, .. } => below is Some && below->0@ == cause@,
            PlayerError::FileDecode { cause, .. } => below is Some && below->0@ == cause@,
            _ => below is None,
        },
{
}

// ----------------------------------------------------------------------
// Opening a device
// ----------------------------------------------------------------------

/// A device opens exactly where there is a default, its thread starts and hands back a
/// handle, and it keeps its name from the first step to the last. Where a step fails
/// its own error comes out, with its cause.
pub proof fn law_opening(
    default_device: Option<Option<String>>,
    picked: Result<Picked, PlayerError>,
    outcome: Result<(), String>,
    awaited: Result<Awaited, PlayerError>,
    reply: OpenReply,
    opened: Result<Opened, PlayerError>,
)
    requires
        call_ensures(open_sink, (default_device,), picked),
        picked matches Ok(p) ==> call_ensures(Picked::spawned, (p, outcome), awaited),
        awaited matches Ok(a) ==> call_ensures(Awaited::replied, (a, reply), opened),
    ensures
        default_device is None <==> picked is Err,
        picked matches Err(error) ==> error is NoOutputDevice,
        picked is Ok ==> {
            &&& outcome is Ok <==> awaited is Ok
            &&& awaited matches Err(error) ==> error
                == (PlayerError::AudioThreadSpawn { cause: outcome->Err_0 })
        },
        picked is Ok && awaited is Ok ==> {
            &&& reply is Connected <==> opened is Ok
            &&& opened matches Ok(device) ==> device.device_name == default_device->0
            &&& reply matches OpenReply::Refused { cause } ==> opened == Err::<
                Opened,
                PlayerError,
            >(PlayerError::DeviceOpen { cause })
            &&& reply matches OpenReply::Silence { cause } ==> opened == Err::<
                Opened,
                PlayerError,
            >(PlayerError::AudioThreadSilent { cause })
        },
{
}

/// A new player is on the device that was opened: its sink is alive, empty, paused and
/// at full gain, and nothing was staged, read or attempted yet. It is paused by the
/// command that comes with it.
pub proof fn law_new(
    opened: Result<Opened, PlayerError>,
    made: Result<(LocalPlayer, Command), PlayerError>,
)
    requires
        call_ensures(LocalPlayer::new, (opened,), made),
    ensures
        opened is Ok <==> made is Ok,
        opened matches Err(error) ==> made->Err_0 == error,
        opened matches Ok(device) ==> {
            let player = made->Ok_0.0@;
            &&& made->Ok_0.1 == Command { sink: player.sink.serial, call: Call::Pause }
            &&& device.device_name is None ==> player.sink.device_name is None
            &&& device.device_name matches Some(name) ==> player.sink.device_name == Some(name@)
            &&& !player.sink.lost
            &&& player.sink.paused
            &&& player.sink.finished
            &&& player.sink.queue.len() == 0
            &&& player.sink.gain == FULL_GAIN
            &&& player.volume_percent == 100
            &&& player.device_check is None
            &&& player.recovery.attempts == 0
            &&& player.recovery.last_attempt is None
            &&& player.generation == 0
            &&& player.transition is None
        },
{
}

// ----------------------------------------------------------------------
// Losing the device
// ----------------------------------------------------------------------

/// What is known of the device, from what was recorded. A sink that was declared lost
/// is lost. One whose device has no readable name is not. Otherwise the last read of
/// the default output tells, where it was made for the name of this device less than
/// an interval ago, and nothing is known where it was not. Calls that wait on the
/// audio thread are refused exactly where a loss is known, made exactly where it is
/// known that there is none, and put off until a read in between, at any time and
/// whatever is on the sink.
pub proof fn law_what_is_known(player: PlayerView, now: u128, opened: Seq<char>)
    ensures
        player.sink.lost ==> player.known_loss(now) == Some(true),
        !player.sink.lost && player.sink.device_name is None ==> player.known_loss(now) == Some(
            false,
        ),
        !player.sink.lost && player.sink.device_name is Some && player.device_check is None
            ==> player.known_loss(now) is None,
        !player.sink.lost && player.sink.device_name is Some && player.device_check is Some ==> {
            let check = player.device_check->0;
            let answers = player.sink.device_name->0 == check.opened && now < check.checked_at
                + DEVICE_CHECK_INTERVAL;
            &&& answers ==> player.known_loss(now) == Some(check.moved)
            &&& !answers ==> player.known_loss(now) is None
        },
        player.refuses(now) <==> player.known_loss(now) == Some(true),
        player.admits(now) <==> player.known_loss(now) == Some(false),
        player.asks_for(opened, now) <==> player.known_loss(now) is None
            && player.sink.device_name == Some(opened),
{
}

/// The probe says what is known, and where nothing is it names the device to compare
/// the default output with.
pub proof fn law_device_lost(player: &LocalPlayer, now: u128, probe: DeviceProbe)
    requires
        call_ensures(LocalPlayer::device_lost, (player, now), probe),
    ensures
        match player@.known_loss(now) {
            Some(known) => probe == (DeviceProbe::Known { lost: known }),
            None => probe is ReadDefault && player@.sink.device_name == Some(probe->opened@),
        },
        player@.sink.lost ==> probe == (DeviceProbe::Known { lost: true }),
        !player@.sink.lost && player@.sink.device_name is None ==> probe == (DeviceProbe::Known {
            lost: false,
        }),
{
}

/// A sink is reported removed exactly where it was declared lost.
pub proof fn law_device_removed(player: &LocalPlayer, removed: bool)
    requires
        call_ensures(LocalPlayer::device_removed, (player,), removed),
    ensures
        removed <==> player@.sink.lost,
{
}

/// The report that the device of the sink in use is gone always raises its loss,
/// whatever is on the sink. Any other fault, and a fault of another sink, changes
/// nothing.
pub proof fn law_stream_fault(player: &mut LocalPlayer, sink: u64, fault: StreamFault)
    requires
        call_ensures(LocalPlayer::stream_fault, (player, sink, fault), ()),
    ensures
        final(player)@ == old(player)@.next(Happening::Faulted { sink, fault }),
        fault is DeviceNotAvailable && sink == old(player)@.sink.serial ==> final(player)@
            == (PlayerView {
            sink: SinkView { lost: true, ..old(player)@.sink },
            ..old(player)@
        }),
        !(fault is DeviceNotAvailable && sink == old(player)@.sink.serial) ==> final(player)@
            == old(player)@,
{
}

/// A look at the handle of the sink in use settles whether it is paused and whether
/// anything is left to play, and leaves the rest; one at another sink changes nothing.
pub proof fn law_look(player: &mut LocalPlayer, sink: u64, paused: bool, empty: bool)
    requires
        call_ensures(LocalPlayer::look, (player, sink, paused, empty), ()),
    ensures
        final(player)@ == old(player)@.next(Happening::LookedAt { sink, paused, empty }),
        sink != old(player)@.sink.serial ==> final(player)@ == old(player)@,
        sink == old(player)@.sink.serial ==> {
            &&& final(player)@.sink.paused == paused
            &&& final(player)@.sink.finished == empty
            &&& empty ==> final(player)@.sink.queue.len() == 0
            &&& !empty ==> final(player)@.sink.queue == old(player)@.sink.queue
            &&& final(player)@ == PlayerView {
                sink: SinkView {
                    paused,
                    finished: empty,
                    queue: final(player)@.sink.queue,
                    ..old(player)@.sink
                },
                ..old(player)@
            }
        },
{
}

/// A read of the default output is kept with its time and its name. It shows a move
/// exactly where a name was read that is another one.
pub proof fn law_default_output_read(
    player: &mut LocalPlayer,
    opened: String,
    current: Option<String>,
    now: u128,
    moved: bool,
)
    requires
        call_ensures(LocalPlayer::default_output_read, (player, opened, current, now), moved),
    ensures
        final(player)@ == old(player)@.next(
            Happening::Checked { opened: opened@, current: text_view(current), now },
        ),
        moved <==> current is Some && current->0@ != opened@,
        final(player)@ == (PlayerView {
            device_check: Some(DeviceCheckView { checked_at: now, opened: opened@, moved }),
            ..old(player)@
        }),
{
}

// ----------------------------------------------------------------------
// Waiting on the audio thread
// ----------------------------------------------------------------------

/// A call on the sink in use is admitted where it is known that there is no loss,
/// refused as disconnected where a loss is known, and otherwise put off until the
/// default output has been compared with the name of the device.
pub proof fn law_live_player(player: &LocalPlayer, now: u128, answer: Admission<u64>)
    requires
        call_ensures(LocalPlayer::live_player, (player, now), answer),
    ensures
        match player@.known_loss(now) {
            Some(false) => answer is Granted && answer->value == player@.sink.serial,
            Some(true) => answer is Refused && answer->error is Disconnected,
            None => answer is ReadDefault && player@.sink.device_name == Some(answer->opened@),
        },
{
}

/// A wait is over with an answer, and given up on with the thread that makes the call;
/// neither changes the player.
pub proof fn law_wait_ends(
    player: &mut LocalPlayer,
    wait: &Wait,
    event: WaitEvent,
    now: u128,
    step: WaitStep,
)
    requires
        call_ensures(LocalPlayer::wait_event, (player, wait, event, now), step),
    ensures
        event is Answered ==> step is Finished && final(player)@ == old(player)@,
        event is WorkerGone ==> step is GaveUp && final(player)@ == old(player)@,
        step is Finished ==> event is Answered,
{
}

/// A poll gives up at once where the sink was replaced or its device is known to be
/// lost, and asks for a read where nothing is known. With a device that is known to be
/// fine, named or not, it goes on as long as the ceiling is not reached; at the ceiling
/// it gives up and declares its sink lost. It changes nothing else.
pub proof fn law_poll(player: &mut LocalPlayer, wait: &Wait, now: u128, step: WaitStep)
    requires
        call_ensures(LocalPlayer::wait_event, (player, wait, WaitEvent::PollElapsed, now), step),
    ensures
        final(player)@ == old(player)@.next(
            Happening::Polled { wait: *wait, finding: PollFinding::Known, now },
        ),
        ({
            let p = old(player)@;
            let own = wait.sink == p.sink.serial;
            let in_time = now < wait.started + AUDIO_THREAD_CEILING;
            &&& !own || p.known_loss(now) == Some(true) ==> step is GaveUp && final(player)@ == p
            &&& own && p.known_loss(now) is None ==> {
                &&& step is ReadDefault
                &&& p.sink.device_name == Some(step->opened@)
                &&& final(player)@ == p
            }
            &&& own && p.known_loss(now) == Some(false) && in_time ==> {
                &&& step is KeepWaiting
                &&& final(player)@ == p
            }
            &&& own && p.known_loss(now) == Some(false) && !in_time ==> {
                &&& step is GaveUp
                &&& final(player)@ == PlayerView { sink: SinkView { lost: true, ..p.sink }, ..p }
            }
        }),
{
}

/// A read that a poll asked for is kept. Where it shows a move the wait is given up on;
/// otherwise the wait goes on as long as the ceiling is not reached, and gives up there
/// and declares its own sink lost, and no other.
pub proof fn law_poll_with_a_read(
    player: &mut LocalPlayer,
    wait: &Wait,
    opened: String,
    current: Option<String>,
    now: u128,
    step: WaitStep,
)
    requires
        call_ensures(
            LocalPlayer::wait_event,
            (player, wait, WaitEvent::DefaultOutput { opened, current }, now),
            step,
        ),
    ensures
        final(player)@ == old(player)@.next(
            Happening::Polled {
                wait: *wait,
                finding: PollFinding::Read { opened: opened@, current: text_view(current) },
                now,
            },
        ),
        ({
            let p = old(player)@;
            let moved = current is Some && current->0@ != opened@;
            let in_time = now < wait.started + AUDIO_THREAD_CEILING;
            let charged = !moved && !in_time && wait.sink == p.sink.serial;
            &&& !moved && in_time <==> step is KeepWaiting
            &&& moved || !in_time <==> step is GaveUp
            &&& final(player)@ == PlayerView {
                device_check: Some(DeviceCheckView { checked_at: now, opened: opened@, moved }),
                sink: SinkView { lost: p.sink.lost || charged, ..p.sink },
                ..p
            }
        }),
{
}

// ----------------------------------------------------------------------
// Recovering the device
// ----------------------------------------------------------------------

/// A reopen puts another sink in place: on the device that was opened, alive, empty,
/// paused, at the gain of the percent that was set, and with no read of the default
/// output kept. It leaves the stages, the percent and the attempts as they were. The
/// commands that come with it pause the new sink and set its gain. A device that did
/// not open changes nothing, and its error comes back.
pub proof fn law_reopen(
    player: &mut LocalPlayer,
    opened: Result<Opened, PlayerError>,
    setup: Result<Vec<Command>, PlayerError>,
)
    requires
        call_ensures(LocalPlayer::reopen, (player, opened), setup),
    ensures
        opened is Ok ==> final(player)@ == old(player)@.next(
            Happening::Reopened { device_name: final(player)@.sink.device_name },
        ),
        opened is Ok <==> setup is Ok,
        opened matches Err(error) ==> setup->Err_0 == error && final(player)@ == old(player)@,
        opened matches Ok(device) ==> {
            let p = old(player)@;
            let fresh = final(player)@.sink;
            &&& fresh.serial != p.sink.serial
            &&& p.sink.serial < u64::MAX ==> fresh.serial == p.sink.serial + 1
            &&& device.device_name is None ==> fresh.device_name is None
            &&& device.device_name matches Some(name) ==> fresh.device_name == Some(name@)
            &&& !fresh.lost
            &&& fresh.paused
            &&& fresh.finished
            &&& fresh.queue.len() == 0
            &&& p.volume_percent <= 100 ==> fresh.gain == p.volume_percent * p.volume_percent
            &&& p.volume_percent >= 100 ==> fresh.gain == FULL_GAIN
            &&& final(player)@ == PlayerView { sink: fresh, device_check: None, ..p }
            &&& setup->Ok_0@ == seq![
                Command { sink: fresh.serial, call: Call::Pause },
                Command { sink: fresh.serial, call: Call::SetVolume { gain: fresh.gain } },
            ]
        },
{
    law_curve_is_a_square(old(player)@.volume_percent);
}

/// An attempt is due exactly while the budget is not used up and the last one, if there
/// was one, is at least the retry spacing ago.
pub proof fn law_reopen_due(attempts: u8, since_last: Option<u128>, due: bool)
    requires
        call_ensures(reopen_due, (attempts, since_last), due),
    ensures
        due <==> attempts < DEVICE_REOPEN_ATTEMPTS && (since_last is None || since_last->0
            >= DEVICE_REOPEN_RETRY_AFTER),
{
}

/// A tick makes the next attempt where one is due, and counts it from now; where none
/// is, it waits and changes nothing.
pub proof fn law_recover_device(player: &mut LocalPlayer, now: u128, recovery: Recovery)
    requires
        call_ensures(LocalPlayer::recover_device, (player, now), recovery),
    ensures
        recovery is Attempt ==> {
            &&& old(player)@.can(Happening::AttemptBegun { now })
            &&& final(player)@ == old(player)@.next(Happening::AttemptBegun { now })
        },
        ({
            let p = old(player)@;
            let last = p.recovery.last_attempt;
            let due = p.recovery.attempts < DEVICE_REOPEN_ATTEMPTS && (last is None || now
                >= last->0 + DEVICE_REOPEN_RETRY_AFTER);
            &&& due ==> {
                &&& recovery is Attempt
                &&& recovery->number == p.recovery.attempts + 1
                &&& final(player)@ == PlayerView {
                    recovery: RecoveryView {
                        attempts: recovery->number,
                        last_attempt: Some(now),
                    },
                    ..p
                }
            }
            &&& !due ==> recovery == Recovery::Settled(Reopen::Waiting) && final(player)@ == p
        }),
{
}

/// An attempt whose device did not open changes nothing and asks for nothing to be done.
/// The last of the budget reports that the device is given up on, each before it that
/// another follows.
pub proof fn law_failed_attempt(
    player: &mut LocalPlayer,
    attempt: u8,
    error: PlayerError,
    ended: (Reopen, Vec<Command>),
)
    requires
        call_ensures(
            LocalPlayer::recovery_ended,
            (player, attempt, Err::<Opened, PlayerError>(error)),
            ended,
        ),
    ensures
        final(player)@ == old(player)@,
        ended.1@.len() == 0,
        attempt < DEVICE_REOPEN_ATTEMPTS <==> ended.0 is Retrying,
        attempt >= DEVICE_REOPEN_ATTEMPTS <==> ended.0 is GaveUp,
{
}

// ----------------------------------------------------------------------
// Staging a track
// ----------------------------------------------------------------------

/// The number of the last stage is the count of the stages that began.
pub proof fn law_stage_generation(player: &LocalPlayer, stage: u64)
    requires
        call_ensures(LocalPlayer::stage_generation, (player,), stage),
    ensures
        stage == player@.generation,
{
}

/// A stage gets the next number, and the player counts it and changes in nothing else.
pub proof fn law_begin_stage(player: &mut LocalPlayer, stage: u64)
    requires
        call_ensures(LocalPlayer::begin_stage, (player,), stage),
    ensures
        final(player)@ == old(player)@.next(Happening::StageBegun),
        stage == old(player)@.generation + 1,
        final(player)@ == (PlayerView { generation: stage, ..old(player)@ }),
{
}

/// A stage that began is admitted to the sink in use as it is where there is known to be
/// no loss, refused as disconnected where one is known, and else handed back as it is.
pub proof fn law_admit_stage(
    player: &LocalPlayer,
    pending: PendingStage,
    now: u128,
    start: StageStart,
)
    requires
        call_ensures(LocalPlayer::admit_stage, (player, pending, now), start),
    ensures
        match player@.known_loss(now) {
            Some(false) => {
                &&& start is Begun
                &&& start->stage@.generation == pending@.generation
                &&& start->stage@.sink == player@.sink.serial
                &&& start->stage@.source == pending@.source
                &&& start->stage@.then_play == pending@.then_play
            },
            Some(true) => start is Refused && start->error is Disconnected,
            None => {
                &&& start is ReadDefault
                &&& player@.sink.device_name == Some(start->opened@)
                &&& start->pending@ == pending@
            },
        },
{
}

/// Playing a file begins a stage of its own for that file, which is to play.
pub proof fn law_play_file(player: &mut LocalPlayer, path: String, now: u128, start: StageStart)
    requires
        old(player)@.generation < u64::MAX,
        call_ensures(LocalPlayer::play_file, (player, path, now), start),
    ensures
        final(player)@ == old(player)@.next(Happening::StageBegun),
        final(player)@.generation == old(player)@.generation + 1,
        final(player)@ == (PlayerView {
            generation: final(player)@.generation,
            ..old(player)@
        }),
        match old(player)@.known_loss(now) {
            Some(false) => {
                &&& start is Begun
                &&& start->stage@.generation == final(player)@.generation
                &&& start->stage@.sink == old(player)@.sink.serial
                &&& start->stage@.source == (TrackSource::File { path })
                &&& start->stage@.then_play
            },
            Some(true) => start is Refused && start->error is Disconnected,
            None => {
                &&& start is ReadDefault
                &&& old(player)@.sink.device_name == Some(start->opened@)
                &&& start->pending@.generation == final(player)@.generation
                &&& start->pending@.source == (TrackSource::File { path })
                &&& start->pending@.then_play
            },
        },
{
}

/// Staging a file begins a stage of its own for that file, which is not to play.
pub proof fn law_stage_file(player: &mut LocalPlayer, path: String, now: u128, start: StageStart)
    requires
        old(player)@.generation < u64::MAX,
        call_ensures(LocalPlayer::stage_file, (player, path, now), start),
    ensures
        final(player)@ == old(player)@.next(Happening::StageBegun),
        final(player)@.generation == old(player)@.generation + 1,
        final(player)@ == (PlayerView {
            generation: final(player)@.generation,
            ..old(player)@
        }),
        match old(player)@.known_loss(now) {
            Some(false) => {
                &&& start is Begun
                &&& start->stage@.generation == final(player)@.generation
                &&& start->stage@.sink == old(player)@.sink.serial
                &&& start->stage@.source == (TrackSource::File { path })
                &&& !start->stage@.then_play
            },
            Some(true) => start is Refused && start->error is Disconnected,
            None => {
                &&& start is ReadDefault
                &&& old(player)@.sink.device_name == Some(start->opened@)
                &&& start->pending@.generation == final(player)@.generation
                &&& start->pending@.source == (TrackSource::File { path })
                &&& !start->pending@.then_play
            },
        },
{
}

/// Playing a prepared stream begins a stage of its own for that stream, which is to
/// play.
pub proof fn law_play_prepared(
    player: &mut LocalPlayer,
    prepared: PreparedStream,
    now: u128,
    start: StageStart,
)
    requires
        old(player)@.generation < u64::MAX,
        call_ensures(LocalPlayer::play_prepared, (player, prepared, now), start),
    ensures
        final(player)@ == old(player)@.next(Happening::StageBegun),
        final(player)@.generation == old(player)@.generation + 1,
        final(player)@ == (PlayerView {
            generation: final(player)@.generation,
            ..old(player)@
        }),
        match old(player)@.known_loss(now) {
            Some(false) => {
                &&& start is Begun
                &&& start->stage@.generation == final(player)@.generation
                &&& start->stage@.sink == old(player)@.sink.serial
                &&& start->stage@.source == (TrackSource::Stream { prepared })
                &&& start->stage@.then_play
            },
            Some(true) => start is Refused && start->error is Disconnected,
            None => {
                &&& start is ReadDefault
                &&& old(player)@.sink.device_name == Some(start->opened@)
                &&& start->pending@.generation == final(player)@.generation
                &&& start->pending@.source == (TrackSource::Stream { prepared })
                &&& start->pending@.then_play
            },
        },
{
}

/// Staging a prepared stream begins a stage of its own for that stream, which is not to
/// play.
pub proof fn law_stage_prepared(
    player: &mut LocalPlayer,
    prepared: PreparedStream,
    now: u128,
    start: StageStart,
)
    requires
        old(player)@.generation < u64::MAX,
        call_ensures(LocalPlayer::stage_prepared, (player, prepared, now), start),
    ensures
        final(player)@ == old(player)@.next(Happening::StageBegun),
        final(player)@.generation == old(player)@.generation + 1,
        final(player)@ == (PlayerView {
            generation: final(player)@.generation,
            ..old(player)@
        }),
        match old(player)@.known_loss(now) {
            Some(false) => {
                &&& start is Begun
                &&& start->stage@.generation == final(player)@.generation
                &&& start->stage@.sink == old(player)@.sink.serial
                &&& start->stage@.source == (TrackSource::Stream { prepared })
                &&& !start->stage@.then_play
            },
            Some(true) => start is Refused && start->error is Disconnected,
            None => {
                &&& start is ReadDefault
                &&& old(player)@.sink.device_name == Some(start->opened@)
                &&& start->pending@.generation == final(player)@.generation
                &&& start->pending@.source == (TrackSource::Stream { prepared })
                &&& !start->pending@.then_play
            },
        },
{
}

/// The decoder of a stream may seek exactly where the length is known. It is told that
/// length and the media type, and a decoder that could not be built is an error with
/// its cause.
pub proof fn law_prepare_stream(
    mime_type: Option<&str>,
    byte_len: Option<u64>,
    plan: DecoderPlan,
    outcome: Result<(), String>,
    stream: Result<PreparedStream, PlayerError>,
)
    requires
        call_ensures(LocalPlayer::prepare_stream, (mime_type, byte_len), plan),
        call_ensures(DecoderPlan::built, (plan, outcome), stream),
    ensures
        plan.seekable <==> byte_len is Some,
        plan.byte_len == byte_len,
        mime_type is Some <==> plan.mime_type is Some,
        mime_type is Some ==> plan.mime_type->0@ == mime_type->0@,
        outcome is Ok <==> stream is Ok,
        stream matches Ok(prepared) ==> prepared.plan == plan,
        outcome matches Err(cause) ==> stream->Err_0 == (PlayerError::StreamDecode { cause }),
{
}

/// The clear of a stage begins exactly where no later stage began. It carries the stage
/// on as it is, with the last stage that is queued and the time.
pub proof fn law_clear_for_stage(
    player: &mut LocalPlayer,
    stage: Stage,
    now: u128,
    clearing: Result<Clearing, PlayerError>,
)
    requires
        call_ensures(LocalPlayer::clear_for_stage, (player, stage, now), clearing),
    ensures
        clearing is Ok ==> final(player)@ == old(player)@.next(
            Happening::ClearBegun { stage: stage@.generation },
        ),
        clearing is Ok <==> stage@.generation == old(player)@.generation,
        clearing matches Err(error) ==> error is Superseded && final(player)@ == old(player)@,
        clearing matches Ok(begun) ==> {
            let queue = old(player)@.sink.queue;
            &&& begun@.stage == stage@
            &&& begun@.started == now
            &&& queue.len() == 0 ==> begun@.through == 0
            &&& queue.len() > 0 ==> begun@.through == queue.last()
            &&& final(player)@ == PlayerView {
                transition: Some(stage@.generation),
                ..old(player)@
            }
        },
{
}

/// What a clearing hands out to be made is a clear, on the sink of its stage and
/// through the stage that it names, and the wait for it goes by the same sink from when
/// the clear was asked for.
pub proof fn law_waiting(clearing: &Clearing, waiting: Waiting)
    requires
        call_ensures(Clearing::waiting, (clearing,), waiting),
    ensures
        waiting.command.sink == clearing@.stage.sink,
        waiting.command.call == (Call::Clear { through: clearing@.through }),
        waiting.wait.sink == clearing@.stage.sink,
        waiting.wait.started == clearing@.started,
{
}

/// A queue of stages in their order, of which the first `kept_from` are not later than
/// `through` and the others are, keeps exactly those others.
pub proof fn law_queued_after(queue: Seq<u64>, through: u64, kept_from: int)
    requires
        0 <= kept_from <= queue.len(),
        forall|i: int| 0 <= i < kept_from ==> #[trigger] queue[i] <= through,
        forall|i: int| kept_from <= i < queue.len() ==> #[trigger] queue[i] > through,
    ensures
        queued_after(queue, through) == queue.skip(kept_from),
    decreases queue.len(),
{
    reveal(Seq::filter);
    if queue.len() > 0 {
        let earlier = queue.drop_last();
        let last = queue.len() - 1;
        assert forall|i: int| 0 <= i < earlier.len() implies earlier[i] == #[trigger] queue[i] by {}
        if kept_from == queue.len() {
            law_queued_after(earlier, through, last);
            assert(queue[last] <= through);
            assert(earlier.skip(last) =~= queue.skip(kept_from));
        } else {
            law_queued_after(earlier, through, kept_from);
            assert(queue[last] > through);
            assert(earlier.skip(kept_from).push(queue[last]) =~= queue.skip(kept_from));
        }
    } else {
        assert(queue.skip(kept_from) =~= queue);
    }
}

/// A clear that was answered drops the stages up to the last one that was queued as it
/// was asked for, and no later one, and leaves the sink paused; the stage goes on as it
/// is. A clear without an answer, or of a sink that was replaced, leaves the sink as it
/// is. Either way no clear is under way any more, and nothing else changes.
pub proof fn law_stage_cleared(
    player: &mut LocalPlayer,
    clearing: Clearing,
    answered: bool,
    cleared: Result<Cleared, PlayerError>,
    kept_from: int,
)
    requires
        call_ensures(LocalPlayer::stage_cleared, (player, clearing, answered), cleared),
        0 <= kept_from <= old(player)@.sink.queue.len(),
        forall|i: int|
            0 <= i < kept_from ==> #[trigger] old(player)@.sink.queue[i] <= clearing@.through,
        forall|i: int|
            kept_from <= i < old(player)@.sink.queue.len() ==> #[trigger]
            old(player)@.sink.queue[i] > clearing@.through,
    ensures
        final(player)@ == old(player)@.next(
            Happening::ClearEnded {
                command: Command {
                    sink: clearing@.stage.sink,
                    call: Call::Clear { through: clearing@.through },
                },
                answered,
            },
        ),
        answered <==> cleared is Ok,
        cleared matches Ok(done) ==> done@ == clearing@.stage,
        cleared matches Err(error) ==> error is NotResponding,
        ({
            let p = old(player)@;
            final(player)@ == PlayerView {
                transition: None,
                sink: if answered && clearing@.stage.sink == p.sink.serial {
                    SinkView {
                        queue: p.sink.queue.skip(kept_from),
                        finished: kept_from == p.sink.queue.len(),
                        paused: true,
                        ..p.sink
                    }
                } else {
                    p.sink
                },
                ..p
            }
        }),
{
    law_queued_after(old(player)@.sink.queue, clearing@.through, kept_from);
}

/// After its clear, the track of a file goes on to that file, and the track of a stream
/// to its append. The stage goes on as it is.
pub proof fn law_next_step(cleared: Cleared, next: NextStep)
    requires
        call_ensures(Cleared::next_step, (cleared,), next),
    ensures
        match cleared@.source {
            TrackSource::File { path } => {
                &&& next is DecodeFile
                &&& next->file@.path == path
                &&& next->file@.ready.generation == cleared@.generation
                &&& next->file@.ready.sink == cleared@.sink
                &&& next->file@.ready.then_play == cleared@.then_play
            },
            TrackSource::Stream { .. } => {
                &&& next is Append
                &&& next->ready@.generation == cleared@.generation
                &&& next->ready@.sink == cleared@.sink
                &&& next->ready@.then_play == cleared@.then_play
            },
        },
{
}

/// The path of a file stage is that of its file.
pub proof fn law_path(file: &FileStage, path: &str)
    requires
        call_ensures(FileStage::path, (file,), path),
    ensures
        path@ == file@.path@,
{
}

/// A file that was decoded goes on to its append, and one that was not is an error that
/// names it and why.
pub proof fn law_decoded(file: FileStage, outcome: FileOutcome, ready: Result<Ready, PlayerError>)
    requires
        call_ensures(FileStage::decoded, (file, outcome), ready),
    ensures
        outcome is Decoded <==> ready is Ok,
        ready matches Ok(r) ==> r@ == file@.ready,
        outcome matches FileOutcome::OpenFailed { cause } ==> ready->Err_0
            == (PlayerError::FileOpen { path: file@.path, cause }),
        outcome matches FileOutcome::DecodeFailed { cause } ==> ready->Err_0
            == (PlayerError::FileDecode { path: file@.path, cause }),
{
}

/// A source is appended exactly where the sink that its stage cleared is still in use
/// and no later stage began. It comes last in the queue, on that sink, and the pause
/// stays as it is. A refused append changes nothing; the device that changed is named
/// first.
pub proof fn law_append_for_stage(
    player: &mut LocalPlayer,
    ready: Ready,
    staged: Result<(Staged, Command), PlayerError>,
)
    requires
        call_ensures(LocalPlayer::append_for_stage, (player, ready), staged),
    ensures
        staged is Ok ==> final(player)@ == old(player)@.next(
            Happening::Appended { stage: ready@.generation, sink: ready@.sink },
        ),
        ({
            let p = old(player)@;
            &&& staged is Ok <==> ready@.sink == p.sink.serial && ready@.generation == p.generation
            &&& staged matches Err(error) ==> {
                &&& final(player)@ == p
                &&& ready@.sink != p.sink.serial <==> error is DeviceChanged
                &&& ready@.sink == p.sink.serial <==> error is Superseded
            }
            &&& staged matches Ok((done, command)) ==> {
                &&& done.plays() == ready@.then_play
                &&& command.sink == p.sink.serial
                &&& command.call == (Call::Append { stage: ready@.generation })
                &&& final(player)@ == PlayerView {
                    sink: SinkView {
                        queue: p.sink.queue.push(ready@.generation),
                        finished: false,
                        ..p.sink
                    },
                    ..p
                }
            }
        }),
{
}

/// A staged track is let run exactly where it is to play.
pub proof fn law_stage_done(player: &mut LocalPlayer, staged: Staged, play: Option<Command>)
    requires
        call_ensures(LocalPlayer::stage_done, (player, staged), play),
    ensures
        play is Some ==> final(player)@ == old(player)@.next(Happening::Played),
        staged.plays() <==> play is Some,
        play matches Some(command) ==> {
            &&& command.sink == old(player)@.sink.serial
            &&& command.call is Play
            &&& final(player)@ == PlayerView {
                sink: SinkView { paused: false, ..old(player)@.sink },
                ..old(player)@
            }
        },
        play is None ==> final(player)@ == old(player)@,
{
}

// ----------------------------------------------------------------------
// Transport
// ----------------------------------------------------------------------

/// The number of the sink in use is the one that commands go to.
pub proof fn law_player(player: &LocalPlayer, sink: u64)
    requires
        call_ensures(LocalPlayer::player, (player,), sink),
    ensures
        sink == player@.sink.serial,
{
}

/// A pause holds the sink in use and changes nothing else.
pub proof fn law_pause(player: &mut LocalPlayer, command: Command)
    requires
        call_ensures(LocalPlayer::pause, (player,), command),
    ensures
        final(player)@ == old(player)@.next(Happening::Paused),
        command.sink == old(player)@.sink.serial,
        command.call is Pause,
        final(player)@ == (PlayerView {
            sink: SinkView { paused: true, ..old(player)@.sink },
            ..old(player)@
        }),
{
}

/// A resume lets the sink in use run and changes nothing else.
pub proof fn law_resume(player: &mut LocalPlayer, command: Command)
    requires
        call_ensures(LocalPlayer::resume, (player,), command),
    ensures
        final(player)@ == old(player)@.next(Happening::Played),
        command.sink == old(player)@.sink.serial,
        command.call is Play,
        final(player)@ == (PlayerView {
            sink: SinkView { paused: false, ..old(player)@.sink },
            ..old(player)@
        }),
{
}

/// Whether playback is paused, and whether it is finished, is what the sink shows.
pub proof fn law_shown(player: &LocalPlayer, paused: bool, finished: bool)
    requires
        call_ensures(LocalPlayer::is_paused, (player,), paused),
        call_ensures(LocalPlayer::is_finished, (player,), finished),
    ensures
        paused <==> player@.sink.paused,
        finished <==> player@.sink.finished,
{
}

/// Setting the volume sets the sink in use to the gain of the percent, and the percent
/// is remembered as it was given. Nothing else changes.
pub proof fn law_set_volume(player: &mut LocalPlayer, percent: u8, command: Command, gain: u16)
    requires
        call_ensures(LocalPlayer::set_volume, (player, percent), command),
        call_ensures(volume_gain, (percent,), gain),
    ensures
        final(player)@ == old(player)@.next(Happening::VolumeSet { percent }),
        command.sink == old(player)@.sink.serial,
        command.call == (Call::SetVolume { gain }),
        final(player)@ == (PlayerView {
            sink: SinkView { gain, ..old(player)@.sink },
            volume_percent: percent,
            ..old(player)@
        }),
{
    law_curve_is_a_square(percent);
}

/// A stop is a clear of the sink in use, through the last stage that is queued, and the
/// wait for it goes by the same sink from now on. It is made, refused or put off as any
/// call that waits on the audio thread.
pub proof fn law_stop(player: &LocalPlayer, now: u128, answer: Admission<Waiting>)
    requires
        call_ensures(LocalPlayer::stop, (player, now), answer),
    ensures
        match player@.known_loss(now) {
            Some(false) => {
                let queue = player@.sink.queue;
                &&& answer is Granted
                &&& answer->value.command.sink == player@.sink.serial
                &&& answer->value.command.call is Clear
                &&& queue.len() == 0 ==> answer->value.command.call->through == 0
                &&& queue.len() > 0 ==> answer->value.command.call->through == queue.last()
                &&& answer->value.wait.sink == player@.sink.serial
                &&& answer->value.wait.started == now
            },
            Some(true) => answer is Refused && answer->error is Disconnected,
            None => answer is ReadDefault && player@.sink.device_name == Some(answer->opened@),
        },
{
}

/// A stop that was answered drops the stages up to the one that it named, and no later
/// one, and leaves the sink paused. One without an answer, or of a sink that was
/// replaced, changes nothing.
pub proof fn law_stop_ended(
    player: &mut LocalPlayer,
    waiting: Waiting,
    answered: bool,
    through: u64,
    kept_from: int,
)
    requires
        call_ensures(LocalPlayer::stop_ended, (player, waiting, answered), ()),
        waiting.command.call == (Call::Clear { through }),
        0 <= kept_from <= old(player)@.sink.queue.len(),
        forall|i: int| 0 <= i < kept_from ==> #[trigger] old(player)@.sink.queue[i] <= through,
        forall|i: int|
            kept_from <= i < old(player)@.sink.queue.len() ==> #[trigger]
            old(player)@.sink.queue[i] > through,
    ensures
        answered ==> final(player)@ == old(player)@.next(
            Happening::Stopped { command: waiting.command },
        ),
        ({
            let p = old(player)@;
            let made = answered && waiting.command.sink == p.sink.serial;
            &&& !made ==> final(player)@ == p
            &&& made ==> final(player)@ == PlayerView {
                sink: SinkView {
                    queue: p.sink.queue.skip(kept_from),
                    finished: kept_from == p.sink.queue.len(),
                    paused: true,
                    ..p.sink
                },
                ..p
            }
        }),
{
    law_queued_after(old(player)@.sink.queue, through, kept_from);
}

/// A seek moves to the position that was asked for, in the sink in use, and the wait for
/// it goes by the same sink from now on. It is made, refused or put off as any call that
/// waits on the audio thread.
pub proof fn law_seek(player: &LocalPlayer, to: u128, now: u128, answer: Admission<Waiting>)
    requires
        call_ensures(LocalPlayer::seek, (player, to, now), answer),
    ensures
        match player@.known_loss(now) {
            Some(false) => {
                &&& answer is Granted
                &&& answer->value.command.sink == player@.sink.serial
                &&& answer->value.command.call == (Call::Seek { to })
                &&& answer->value.wait.sink == player@.sink.serial
                &&& answer->value.wait.started == now
            },
            Some(true) => answer is Refused && answer->error is Disconnected,
            None => answer is ReadDefault && player@.sink.device_name == Some(answer->opened@),
        },
{
}

/// A seek succeeded exactly where the audio thread said so; it failed with the cause
/// that was given, or for want of an answer.
pub proof fn law_seek_ended(answer: Option<Result<(), String>>, sought: Result<(), PlayerError>)
    requires
        call_ensures(LocalPlayer::seek_ended, (answer,), sought),
    ensures
        sought is Ok <==> answer is Some && answer->0 is Ok,
        answer is None ==> sought->Err_0 is NotResponding,
        answer is Some && answer->0 is Err ==> sought->Err_0 == (PlayerError::Seek {
            cause: answer->0->Err_0,
        }),
{
}

} // verus!
