//! What calls come to when they follow one another.
//!
//! Each law takes some calls with their arguments and results, the player of each being
//! what the call before it left, and says how what comes back at the end relates to what
//! went in at the start.
use vstd::prelude::*;

use crate::calls::{
    law_append_for_stage, law_clear_for_stage, law_decoded, law_next_step, law_play_file,
    law_play_prepared, law_queued_after, law_stage_cleared, law_stage_done, law_stage_file,
    law_stop_ended, law_waiting,
};
use crate::device::{Admission, DeviceProbe};
use crate::error::PlayerError;
use crate::limits::{AUDIO_THREAD_CEILING, DEVICE_CHECK_INTERVAL, DEVICE_REOPEN_RETRY_AFTER};
use crate::model::PlayerView;
use crate::open::Opened;
use crate::player::LocalPlayer;
use crate::reopen::{Recovery, Reopen};
use crate::sink::{Call, Command, SinkView, StreamFault};
use crate::stage::{
    Cleared, Clearing, FileOutcome, FileStage, NextStep, PendingStage, Ready, Stage, StageStart,
    Staged,
};
use crate::stream::PreparedStream;
use crate::wait::{Wait, WaitEvent, WaitStep, Waiting};

verus! {

// ----------------------------------------------------------------------
// Replacing what is playing
// ----------------------------------------------------------------------

/// The clear that a stage hands out is the one whose effect is recorded when it is
/// answered, and it drops every stage that was queued when it began: the call that is
/// made is a clear on the sink of the stage, and once it is answered none of them is
/// left on that sink, which is paused. A stage that is queued later stays.
pub proof fn law_clear_made_is_clear_recorded(
    player: &mut LocalPlayer,
    stage: Stage,
    now: u128,
    clearing: Clearing,
    waiting: Waiting,
    later: &mut LocalPlayer,
    cleared: Result<Cleared, PlayerError>,
)
    requires
        call_ensures(
            LocalPlayer::clear_for_stage,
            (player, stage, now),
            Ok::<Clearing, PlayerError>(clearing),
        ),
        call_ensures(Clearing::waiting, (&clearing,), waiting),
        call_ensures(LocalPlayer::stage_cleared, (later, clearing, true), cleared),
        old(player)@.valid(),
        old(later)@.valid(),
        stage@.sink == old(later)@.sink.serial,
    ensures
        waiting.command.sink == stage@.sink,
        waiting.command.call is Clear,
        waiting.wait == (Wait { sink: stage@.sink, started: now }),
        final(later)@.sink == old(later)@.sink.after(waiting.command.call),
        final(later)@.sink.paused,
        forall|i: int|
            0 <= i < old(player)@.sink.queue.len() ==> !final(later)@.sink.queue.contains(
                #[trigger] old(player)@.sink.queue[i],
            ),
        forall|i: int|
            0 <= i < old(later)@.sink.queue.len() && (forall|k: int|
                0 <= k < old(player)@.sink.queue.len() ==> #[trigger] old(player)@.sink.queue[k]
                    < old(later)@.sink.queue[i]) && old(later)@.sink.queue[i] > 0
                ==> final(later)@.sink.queue.contains(#[trigger] old(later)@.sink.queue[i]),
{
    law_clear_for_stage(player, stage, now, Ok(clearing));
    law_waiting(&clearing, waiting);
    let queue = old(later)@.sink.queue;
    let through = clearing@.through;
    let kept_from = lemma_cut(queue, through);
    law_stage_cleared(later, clearing, true, cleared, kept_from);
    law_queued_after(queue, through, kept_from);
    let rest = queue.skip(kept_from);
    let before = old(player)@.sink.queue;
    assert forall|i: int| 0 <= i < before.len() implies !rest.contains(#[trigger] before[i]) by {
        assert(before[i] <= before[before.len() - 1]);
        if rest.contains(before[i]) {
            let at = choose|k: int| 0 <= k < rest.len() && rest[k] == before[i];
            assert(queue[kept_from + at] > through);
        }
    }
    assert forall|i: int|
        0 <= i < queue.len() && (forall|k: int|
            0 <= k < before.len() ==> #[trigger] before[k] < queue[i]) && queue[i]
            > 0 implies rest.contains(#[trigger] queue[i]) by {
        if before.len() > 0 {
            assert(before[before.len() - 1] < queue[i]);
        }
        assert(i >= kept_from);
        assert(rest[i - kept_from] == queue[i]);
    }
}

/// Where a queue of stages in their order is cut by a clear.
proof fn lemma_cut(queue: Seq<u64>, through: u64) -> (kept_from: int)
    requires
        forall|i: int, j: int|
            0 <= i <= j < queue.len() ==> #[trigger] queue[i] <= #[trigger] queue[j],
    ensures
        0 <= kept_from <= queue.len(),
        forall|i: int| 0 <= i < kept_from ==> #[trigger] queue[i] <= through,
        forall|i: int| kept_from <= i < queue.len() ==> #[trigger] queue[i] > through,
    decreases queue.len(),
{
    if queue.len() == 0 {
        0
    } else if queue[queue.len() - 1] <= through {
        queue.len() as int
    } else {
        let earlier = queue.drop_last();
        let kept_from = lemma_cut(earlier, through);
        assert forall|i: int| 0 <= i < earlier.len() implies earlier[i] == #[trigger] queue[i] by {}
        assert forall|i: int| kept_from <= i < queue.len() implies #[trigger] queue[i]
            > through by {
            if i < earlier.len() {
                assert(earlier[i] > through);
            }
        }
        kept_from
    }
}

/// The steps of a stage from its clear to its end, each on the player that the one
/// before it left.
proof fn lemma_stage_steps(
    stage: Stage,
    clears: &mut LocalPlayer,
    clear_at: u128,
    clearing: Clearing,
    waiting: Waiting,
    answers: &mut LocalPlayer,
    cleared: Cleared,
    ready: Ready,
    appends: &mut LocalPlayer,
    staged: Staged,
    append: Command,
    ends: &mut LocalPlayer,
    play: Option<Command>,
)
    requires
        call_ensures(
            LocalPlayer::clear_for_stage,
            (clears, stage, clear_at),
            Ok::<Clearing, PlayerError>(clearing),
        ),
        call_ensures(Clearing::waiting, (&clearing,), waiting),
        *old(answers) == *final(clears),
        call_ensures(
            LocalPlayer::stage_cleared,
            (answers, clearing, true),
            Ok::<Cleared, PlayerError>(cleared),
        ),
        ready@.generation == cleared@.generation,
        ready@.sink == cleared@.sink,
        ready@.then_play == cleared@.then_play,
        *old(appends) == *final(answers),
        call_ensures(
            LocalPlayer::append_for_stage,
            (appends, ready),
            Ok::<(Staged, Command), PlayerError>((staged, append)),
        ),
        *old(ends) == *final(appends),
        call_ensures(LocalPlayer::stage_done, (ends, staged), play),
        old(clears)@.valid(),
        stage@.sink == old(clears)@.sink.serial,
    ensures
        waiting.command.sink == stage@.sink,
        waiting.command.call is Clear,
        append == (Command {
            sink: stage@.sink,
            call: Call::Append { stage: stage@.generation },
        }),
        stage@.then_play ==> play == Some(Command { sink: stage@.sink, call: Call::Play }),
        !stage@.then_play ==> play is None,
        final(ends)@ == (PlayerView {
            transition: None,
            sink: SinkView {
                queue: seq![stage@.generation],
                finished: false,
                paused: !stage@.then_play,
                ..old(clears)@.sink
            },
            ..old(clears)@
        }),
{
    law_clear_for_stage(clears, stage, clear_at, Ok(clearing));
    law_waiting(&clearing, waiting);
    let queue = old(clears)@.sink.queue;
    assert forall|i: int| 0 <= i < queue.len() implies #[trigger] queue[i]
        <= clearing@.through by {
        assert(queue[i] <= queue[queue.len() - 1]);
    }
    law_stage_cleared(answers, clearing, true, Ok(cleared), queue.len() as int);
    law_append_for_stage(appends, ready, Ok((staged, append)));
    law_stage_done(ends, staged, play);
    assert(queue.skip(queue.len() as int).push(stage@.generation) =~= seq![stage@.generation]);
}

/// Playing a file replaces whatever was playing. On any player, whatever is on its
/// sink: the calls that are made are a clear, an append and then a play, in this order
/// and all on the sink in use, and at the end the sink runs and holds the new track
/// alone. The volume, the device and the attempts to reopen it are as before.
pub proof fn law_playing_a_file_replaces(
    player: &mut LocalPlayer,
    path: String,
    now: u128,
    stage: Stage,
    clears: &mut LocalPlayer,
    clear_at: u128,
    clearing: Clearing,
    waiting: Waiting,
    answers: &mut LocalPlayer,
    cleared: Cleared,
    file: FileStage,
    ready: Ready,
    appends: &mut LocalPlayer,
    staged: Staged,
    append: Command,
    ends: &mut LocalPlayer,
    play: Option<Command>,
)
    requires
        old(player)@.valid(),
        old(player)@.generation < u64::MAX,
        call_ensures(
            LocalPlayer::play_file,
            (player, path, now),
            StageStart::Begun { stage },
        ),
        *old(clears) == *final(player),
        call_ensures(
            LocalPlayer::clear_for_stage,
            (clears, stage, clear_at),
            Ok::<Clearing, PlayerError>(clearing),
        ),
        call_ensures(Clearing::waiting, (&clearing,), waiting),
        *old(answers) == *final(clears),
        call_ensures(
            LocalPlayer::stage_cleared,
            (answers, clearing, true),
            Ok::<Cleared, PlayerError>(cleared),
        ),
        call_ensures(Cleared::next_step, (cleared,), NextStep::DecodeFile { file }),
        call_ensures(
            FileStage::decoded,
            (file, FileOutcome::Decoded),
            Ok::<Ready, PlayerError>(ready),
        ),
        *old(appends) == *final(answers),
        call_ensures(
            LocalPlayer::append_for_stage,
            (appends, ready),
            Ok::<(Staged, Command), PlayerError>((staged, append)),
        ),
        *old(ends) == *final(appends),
        call_ensures(LocalPlayer::stage_done, (ends, staged), play),
    ensures
        ({
            let sink = old(player)@.sink.serial;
            let number = (old(player)@.generation + 1) as u64;
            &&& file@.path == path
            &&& waiting.command.sink == sink && waiting.command.call is Clear
            &&& append == Command { sink, call: Call::Append { stage: number } }
            &&& play == Some(Command { sink, call: Call::Play })
            &&& final(ends)@ == PlayerView {
                transition: None,
                generation: number,
                sink: SinkView {
                    queue: seq![number],
                    finished: false,
                    paused: false,
                    ..old(player)@.sink
                },
                ..old(player)@
            }
        }),
{
    law_play_file(player, path, now, StageStart::Begun { stage });
    law_next_step(cleared, NextStep::DecodeFile { file });
    law_decoded(file, FileOutcome::Decoded, Ok(ready));
    law_clear_for_stage(clears, stage, clear_at, Ok(clearing));
    let queue = old(clears)@.sink.queue;
    let kept_from = lemma_cut(queue, clearing@.through);
    law_stage_cleared(answers, clearing, true, Ok(cleared), kept_from);
    lemma_stage_steps(
        stage,
        clears,
        clear_at,
        clearing,
        waiting,
        answers,
        cleared,
        ready,
        appends,
        staged,
        append,
        ends,
        play,
    );
}

/// Staging a file replaces whatever was playing and stays paused: the calls that are
/// made are a clear and an append, both on the sink in use, and none lets it run.
pub proof fn law_staging_a_file_stays_paused(
    player: &mut LocalPlayer,
    path: String,
    now: u128,
    stage: Stage,
    clears: &mut LocalPlayer,
    clear_at: u128,
    clearing: Clearing,
    waiting: Waiting,
    answers: &mut LocalPlayer,
    cleared: Cleared,
    file: FileStage,
    ready: Ready,
    appends: &mut LocalPlayer,
    staged: Staged,
    append: Command,
    ends: &mut LocalPlayer,
    play: Option<Command>,
)
    requires
        old(player)@.valid(),
        old(player)@.generation < u64::MAX,
        call_ensures(
            LocalPlayer::stage_file,
            (player, path, now),
            StageStart::Begun { stage },
        ),
        *old(clears) == *final(player),
        call_ensures(
            LocalPlayer::clear_for_stage,
            (clears, stage, clear_at),
            Ok::<Clearing, PlayerError>(clearing),
        ),
        call_ensures(Clearing::waiting, (&clearing,), waiting),
        *old(answers) == *final(clears),
        call_ensures(
            LocalPlayer::stage_cleared,
            (answers, clearing, true),
            Ok::<Cleared, PlayerError>(cleared),
        ),
        call_ensures(Cleared::next_step, (cleared,), NextStep::DecodeFile { file }),
        call_ensures(
            FileStage::decoded,
            (file, FileOutcome::Decoded),
            Ok::<Ready, PlayerError>(ready),
        ),
        *old(appends) == *final(answers),
        call_ensures(
            LocalPlayer::append_for_stage,
            (appends, ready),
            Ok::<(Staged, Command), PlayerError>((staged, append)),
        ),
        *old(ends) == *final(appends),
        call_ensures(LocalPlayer::stage_done, (ends, staged), play),
    ensures
        ({
            let sink = old(player)@.sink.serial;
            let number = (old(player)@.generation + 1) as u64;
            &&& file@.path == path
            &&& waiting.command.sink == sink && waiting.command.call is Clear
            &&& append == Command { sink, call: Call::Append { stage: number } }
            &&& play is None
            &&& final(ends)@ == PlayerView {
                transition: None,
                generation: number,
                sink: SinkView {
                    queue: seq![number],
                    finished: false,
                    paused: true,
                    ..old(player)@.sink
                },
                ..old(player)@
            }
        }),
{
    law_stage_file(player, path, now, StageStart::Begun { stage });
    law_next_step(cleared, NextStep::DecodeFile { file });
    law_decoded(file, FileOutcome::Decoded, Ok(ready));
    law_clear_for_stage(clears, stage, clear_at, Ok(clearing));
    let queue = old(clears)@.sink.queue;
    let kept_from = lemma_cut(queue, clearing@.through);
    law_stage_cleared(answers, clearing, true, Ok(cleared), kept_from);
    lemma_stage_steps(
        stage,
        clears,
        clear_at,
        clearing,
        waiting,
        answers,
        cleared,
        ready,
        appends,
        staged,
        append,
        ends,
        play,
    );
}

/// Playing a prepared stream replaces whatever was playing, as playing a file does.
pub proof fn law_playing_a_stream_replaces(
    player: &mut LocalPlayer,
    prepared: PreparedStream,
    now: u128,
    stage: Stage,
    clears: &mut LocalPlayer,
    clear_at: u128,
    clearing: Clearing,
    waiting: Waiting,
    answers: &mut LocalPlayer,
    cleared: Cleared,
    ready: Ready,
    appends: &mut LocalPlayer,
    staged: Staged,
    append: Command,
    ends: &mut LocalPlayer,
    play: Option<Command>,
)
    requires
        old(player)@.valid(),
        old(player)@.generation < u64::MAX,
        call_ensures(
            LocalPlayer::play_prepared,
            (player, prepared, now),
            StageStart::Begun { stage },
        ),
        *old(clears) == *final(player),
        call_ensures(
            LocalPlayer::clear_for_stage,
            (clears, stage, clear_at),
            Ok::<Clearing, PlayerError>(clearing),
        ),
        call_ensures(Clearing::waiting, (&clearing,), waiting),
        *old(answers) == *final(clears),
        call_ensures(
            LocalPlayer::stage_cleared,
            (answers, clearing, true),
            Ok::<Cleared, PlayerError>(cleared),
        ),
        call_ensures(Cleared::next_step, (cleared,), NextStep::Append { ready }),
        *old(appends) == *final(answers),
        call_ensures(
            LocalPlayer::append_for_stage,
            (appends, ready),
            Ok::<(Staged, Command), PlayerError>((staged, append)),
        ),
        *old(ends) == *final(appends),
        call_ensures(LocalPlayer::stage_done, (ends, staged), play),
    ensures
        ({
            let sink = old(player)@.sink.serial;
            let number = (old(player)@.generation + 1) as u64;
            &&& waiting.command.sink == sink && waiting.command.call is Clear
            &&& append == Command { sink, call: Call::Append { stage: number } }
            &&& play == Some(Command { sink, call: Call::Play })
            &&& final(ends)@.sink.queue == seq![number]
            &&& !final(ends)@.sink.paused && !final(ends)@.sink.finished
        }),
{
    law_play_prepared(player, prepared, now, StageStart::Begun { stage });
    law_next_step(cleared, NextStep::Append { ready });
    law_clear_for_stage(clears, stage, clear_at, Ok(clearing));
    let queue = old(clears)@.sink.queue;
    let kept_from = lemma_cut(queue, clearing@.through);
    law_stage_cleared(answers, clearing, true, Ok(cleared), kept_from);
    lemma_stage_steps(
        stage,
        clears,
        clear_at,
        clearing,
        waiting,
        answers,
        cleared,
        ready,
        appends,
        staged,
        append,
        ends,
        play,
    );
}

/// Once a later stage began, the one before it is refused at its clear and at its
/// append, on whichever sink, and changes nothing by asking.
pub proof fn law_later_stage_overtakes(
    player: &mut LocalPlayer,
    path: String,
    now: u128,
    start: StageStart,
    stage: Stage,
    ready: Ready,
    clears: &mut LocalPlayer,
    clear_at: u128,
    clearing: Result<Clearing, PlayerError>,
    appends: &mut LocalPlayer,
    staged: Result<(Staged, Command), PlayerError>,
)
    requires
        old(player)@.generation < u64::MAX,
        stage@.generation <= old(player)@.generation,
        ready@.generation <= old(player)@.generation,
        call_ensures(LocalPlayer::play_file, (player, path, now), start),
        *old(clears) == *final(player),
        call_ensures(LocalPlayer::clear_for_stage, (clears, stage, clear_at), clearing),
        *old(appends) == *final(player),
        call_ensures(LocalPlayer::append_for_stage, (appends, ready), staged),
    ensures
        clearing is Err && clearing->Err_0 is Superseded,
        final(clears)@ == final(player)@,
        staged is Err,
        final(appends)@ == final(player)@,
{
    law_play_file(player, path, now, start);
    law_clear_for_stage(clears, stage, clear_at, clearing);
    law_append_for_stage(appends, ready, staged);
}

// ----------------------------------------------------------------------
// A device that is gone
// ----------------------------------------------------------------------

/// What every call that asks for the device says of a player at one time: the probe, the
/// three calls that wait on the audio thread and a stage that is to be admitted. They
/// agree: all are refused where the device is lost, all are made where it is fine, and
/// all ask for a read where that is not known.
pub proof fn law_calls_agree_on_the_device(
    player: &LocalPlayer,
    now: u128,
    to: u128,
    pending: PendingStage,
    probe: DeviceProbe,
    live: Admission<u64>,
    stop: Admission<Waiting>,
    seek: Admission<Waiting>,
    start: StageStart,
)
    requires
        call_ensures(LocalPlayer::device_lost, (player, now), probe),
        call_ensures(LocalPlayer::live_player, (player, now), live),
        call_ensures(LocalPlayer::stop, (player, now), stop),
        call_ensures(LocalPlayer::seek, (player, to, now), seek),
        call_ensures(LocalPlayer::admit_stage, (player, pending, now), start),
    ensures
        probe == (DeviceProbe::Known { lost: true }) ==> {
            &&& live is Refused && stop is Refused && seek is Refused && start is Refused
        },
        probe == (DeviceProbe::Known { lost: false }) ==> {
            &&& live is Granted && stop is Granted && seek is Granted && start is Begun
        },
        probe is ReadDefault ==> {
            &&& live is ReadDefault && stop is ReadDefault && seek is ReadDefault
            &&& start is ReadDefault
            &&& live->opened@ == probe->opened@ && stop->opened@ == probe->opened@
            &&& seek->opened@ == probe->opened@ && start->opened@ == probe->opened@
        },
{
}

/// Once the device of the sink in use is reported gone, whatever is on the sink, it reads
/// as removed and as lost at any time, and every call that waits on the audio thread is
/// refused as disconnected.
pub proof fn law_removed_device_refuses(
    player: &mut LocalPlayer,
    later: &mut LocalPlayer,
    now: u128,
    to: u128,
    path: String,
    removed: bool,
    probe: DeviceProbe,
    live: Admission<u64>,
    stop: Admission<Waiting>,
    seek: Admission<Waiting>,
    start: StageStart,
)
    requires
        call_ensures(
            LocalPlayer::stream_fault,
            (player, old(player)@.sink.serial, StreamFault::DeviceNotAvailable),
            (),
        ),
        call_ensures(LocalPlayer::device_removed, (&*final(player),), removed),
        call_ensures(LocalPlayer::device_lost, (&*final(player), now), probe),
        call_ensures(LocalPlayer::live_player, (&*final(player), now), live),
        call_ensures(LocalPlayer::stop, (&*final(player), now), stop),
        call_ensures(LocalPlayer::seek, (&*final(player), to, now), seek),
        *old(later) == *final(player),
        call_ensures(LocalPlayer::play_file, (later, path, now), start),
    ensures
        removed,
        probe == (DeviceProbe::Known { lost: true }),
        live is Refused && live->error is Disconnected,
        stop is Refused && stop->error is Disconnected,
        seek is Refused && seek->error is Disconnected,
        start is Refused && start->error is Disconnected,
{
}

/// A read of the default output settles the calls of the second after it. On a sink that
/// is not lost and was opened on the name that was asked about, whatever is on it: where
/// the default still has that name, or none that can be read, every call that waits on
/// the audio thread is made; where it has another, every one is refused. Once the second
/// is over a new read is asked for.
pub proof fn law_read_settles_the_calls(
    player: &mut LocalPlayer,
    opened: String,
    current: Option<String>,
    read_at: u128,
    moved: bool,
    later: &mut LocalPlayer,
    now: u128,
    to: u128,
    path: String,
    probe: DeviceProbe,
    live: Admission<u64>,
    stop: Admission<Waiting>,
    seek: Admission<Waiting>,
    start: StageStart,
)
    requires
        !old(player)@.sink.lost,
        old(player)@.sink.device_name == Some(opened@),
        call_ensures(LocalPlayer::default_output_read, (player, opened, current, read_at), moved),
        call_ensures(LocalPlayer::device_lost, (&*final(player), now), probe),
        call_ensures(LocalPlayer::live_player, (&*final(player), now), live),
        call_ensures(LocalPlayer::stop, (&*final(player), now), stop),
        call_ensures(LocalPlayer::seek, (&*final(player), to, now), seek),
        *old(later) == *final(player),
        call_ensures(LocalPlayer::play_file, (later, path, now), start),
    ensures
        moved <==> current is Some && current->0@ != opened@,
        now < read_at + DEVICE_CHECK_INTERVAL ==> {
            &&& probe == (DeviceProbe::Known { lost: moved })
            &&& !moved ==> live is Granted && stop is Granted && seek is Granted && start is Begun
            &&& moved ==> {
                &&& live is Refused && stop is Refused && seek is Refused && start is Refused
            }
        },
        now >= read_at + DEVICE_CHECK_INTERVAL ==> {
            &&& probe is ReadDefault && live is ReadDefault && stop is ReadDefault
            &&& seek is ReadDefault && start is ReadDefault
        },
{
}

/// A wait on a device that is fine is not cut short: where the last read of the default
/// output shows no move, or the device has no readable name, a poll before the ceiling
/// goes on and leaves the player as it is, whatever is on the sink and whether or not the
/// device has a name.
pub proof fn law_slow_source_is_waited_for(
    player: &mut LocalPlayer,
    probe: DeviceProbe,
    wait: &Wait,
    now: u128,
    step: WaitStep,
)
    requires
        call_ensures(LocalPlayer::device_lost, (&*old(player), now), probe),
        call_ensures(LocalPlayer::wait_event, (player, wait, WaitEvent::PollElapsed, now), step),
        probe == (DeviceProbe::Known { lost: false }),
        wait.sink == old(player)@.sink.serial,
        now < wait.started + AUDIO_THREAD_CEILING,
    ensures
        step is KeepWaiting,
        final(player)@ == old(player)@,
{
}

/// A read that is made for a poll leaves the player just as the same read made for the
/// probe does, as long as the ceiling is not reached, and the wait goes on exactly where
/// that read shows no move.
pub proof fn law_poll_reads_as_the_probe_does(
    player: &mut LocalPlayer,
    other: &mut LocalPlayer,
    wait: &Wait,
    opened: String,
    current: Option<String>,
    now: u128,
    step: WaitStep,
    moved: bool,
)
    requires
        *old(player) == *old(other),
        call_ensures(
            LocalPlayer::wait_event,
            (player, wait, WaitEvent::DefaultOutput { opened, current }, now),
            step,
        ),
        call_ensures(LocalPlayer::default_output_read, (other, opened, current, now), moved),
        now < wait.started + AUDIO_THREAD_CEILING,
    ensures
        final(player)@ == final(other)@,
        moved ==> step is GaveUp,
        !moved ==> step is KeepWaiting,
{
}

/// A wait that runs into the ceiling on a device that is known to be fine leaves it
/// removed, so that the next call is refused.
pub proof fn law_ceiling_refuses_the_next_call(
    player: &mut LocalPlayer,
    probe: DeviceProbe,
    wait: &Wait,
    now: u128,
    step: WaitStep,
    later: u128,
    removed: bool,
    stop: Admission<Waiting>,
)
    requires
        call_ensures(LocalPlayer::device_lost, (&*old(player), now), probe),
        call_ensures(LocalPlayer::wait_event, (player, wait, WaitEvent::PollElapsed, now), step),
        probe == (DeviceProbe::Known { lost: false }),
        wait.sink == old(player)@.sink.serial,
        now >= wait.started + AUDIO_THREAD_CEILING,
        call_ensures(LocalPlayer::device_removed, (&*final(player),), removed),
        call_ensures(LocalPlayer::stop, (&*final(player), later), stop),
    ensures
        step is GaveUp,
        removed,
        stop is Refused && stop->error is Disconnected,
{
}

// ----------------------------------------------------------------------
// A device that comes back
// ----------------------------------------------------------------------

/// A recovery that succeeds leaves the player just as a reopen on the same device does,
/// with the same commands, but for the attempts, which start over.
pub proof fn law_recovery_is_a_reopen(
    player: &mut LocalPlayer,
    other: &mut LocalPlayer,
    attempt: u8,
    device: Opened,
    ended: (Reopen, Vec<Command>),
    setup: Result<Vec<Command>, PlayerError>,
)
    requires
        *old(player) == *old(other),
        call_ensures(
            LocalPlayer::recovery_ended,
            (player, attempt, Ok::<Opened, PlayerError>(device)),
            ended,
        ),
        call_ensures(LocalPlayer::reopen, (other, Ok::<Opened, PlayerError>(device)), setup),
    ensures
        ended.0 is Reopened,
        setup is Ok,
        ended.1@ == setup->Ok_0@,
        final(player)@.sink == final(other)@.sink,
        final(player)@.volume_percent == final(other)@.volume_percent,
        final(player)@.device_check == final(other)@.device_check,
        final(player)@.generation == final(other)@.generation,
        final(player)@.transition == final(other)@.transition,
        final(player)@.recovery.attempts == 0,
        final(player)@.recovery.last_attempt is None,
{
}

/// A recovered device is alive, whatever became of the one before it: it does not read as
/// removed, the default output is asked for its name before the first call, or none is
/// needed where it has none, and nothing is refused until then. It is another sink than
/// before, paused and empty. The next loss finds the whole budget of attempts.
pub proof fn law_recovered_device_is_alive(
    player: &mut LocalPlayer,
    attempt: u8,
    device: Opened,
    ended: (Reopen, Vec<Command>),
    now: u128,
    removed: bool,
    probe: DeviceProbe,
    stop: Admission<Waiting>,
    paused: bool,
    finished: bool,
    sink: u64,
    later: &mut LocalPlayer,
    recovery: Recovery,
)
    requires
        call_ensures(
            LocalPlayer::recovery_ended,
            (player, attempt, Ok::<Opened, PlayerError>(device)),
            ended,
        ),
        call_ensures(LocalPlayer::device_removed, (&*final(player),), removed),
        call_ensures(LocalPlayer::device_lost, (&*final(player), now), probe),
        call_ensures(LocalPlayer::stop, (&*final(player), now), stop),
        call_ensures(LocalPlayer::is_paused, (&*final(player),), paused),
        call_ensures(LocalPlayer::is_finished, (&*final(player),), finished),
        call_ensures(LocalPlayer::player, (&*final(player),), sink),
        *old(later) == *final(player),
        call_ensures(LocalPlayer::recover_device, (later, now), recovery),
    ensures
        ended.0 is Reopened,
        !removed,
        device.device_name is None ==> probe == (DeviceProbe::Known { lost: false })
            && stop is Granted,
        device.device_name is Some ==> {
            &&& probe is ReadDefault && probe->opened@ == device.device_name->0@
            &&& stop is ReadDefault && stop->opened@ == device.device_name->0@
        },
        paused && finished,
        sink != old(player)@.sink.serial,
        forall|i: int| 0 <= i < ended.1@.len() ==> (#[trigger] ended.1@[i]).sink == sink,
        recovery == (Recovery::Attempt { number: 1 }),
{
}

/// After an attempt that failed, the next tick makes another exactly where the retry
/// spacing is over and the budget is not, and its number is the next one.
pub proof fn law_next_attempt(
    player: &mut LocalPlayer,
    now: u128,
    number: u8,
    fails: &mut LocalPlayer,
    error: PlayerError,
    ended: (Reopen, Vec<Command>),
    asks: &mut LocalPlayer,
    later: u128,
    recovery: Recovery,
)
    requires
        call_ensures(LocalPlayer::recover_device, (player, now), Recovery::Attempt { number }),
        *old(fails) == *final(player),
        call_ensures(
            LocalPlayer::recovery_ended,
            (fails, number, Err::<Opened, PlayerError>(error)),
            ended,
        ),
        *old(asks) == *final(fails),
        call_ensures(LocalPlayer::recover_device, (asks, later), recovery),
    ensures
        ended.0 is Retrying || ended.0 is GaveUp,
        recovery is Attempt <==> ended.0 is Retrying && later >= now + DEVICE_REOPEN_RETRY_AFTER,
        recovery is Attempt ==> recovery->number == number + 1,
        !(recovery is Attempt) ==> recovery == Recovery::Settled(Reopen::Waiting),
{
}

/// A reopened device is as loud as the one before: it is set to the gain that the last
/// setting of the volume commanded.
pub proof fn law_reopened_device_keeps_the_volume(
    player: &mut LocalPlayer,
    percent: u8,
    command: Command,
    reopens: &mut LocalPlayer,
    device: Opened,
    setup: Result<Vec<Command>, PlayerError>,
)
    requires
        call_ensures(LocalPlayer::set_volume, (player, percent), command),
        *old(reopens) == *final(player),
        call_ensures(LocalPlayer::reopen, (reopens, Ok::<Opened, PlayerError>(device)), setup),
    ensures
        setup is Ok,
        setup->Ok_0@.len() == 2,
        setup->Ok_0@[0].call is Pause,
        setup->Ok_0@[1].call == command.call,
        setup->Ok_0@[0].sink == final(reopens)@.sink.serial,
        setup->Ok_0@[1].sink == final(reopens)@.sink.serial,
        final(reopens)@.sink.gain == final(player)@.sink.gain,
{
}

// ----------------------------------------------------------------------
// Transport
// ----------------------------------------------------------------------

/// A stop discards what is playing: the call that is made is a clear on the sink in use,
/// and once it is answered, with nothing in between, the sink is finished, empty and
/// paused, whatever was on it. Without an answer nothing changes.
pub proof fn law_stop_discards(
    player: &LocalPlayer,
    now: u128,
    waiting: Waiting,
    ends: &mut LocalPlayer,
    answered: bool,
    paused: bool,
    finished: bool,
)
    requires
        player@.valid(),
        call_ensures(LocalPlayer::stop, (player, now), Admission::Granted { value: waiting }),
        *old(ends) == *player,
        call_ensures(LocalPlayer::stop_ended, (ends, waiting, answered), ()),
        call_ensures(LocalPlayer::is_paused, (&*final(ends),), paused),
        call_ensures(LocalPlayer::is_finished, (&*final(ends),), finished),
    ensures
        waiting.command.sink == player@.sink.serial,
        waiting.command.call is Clear,
        answered ==> paused && finished && final(ends)@.sink.queue.len() == 0,
        !answered ==> final(ends)@ == player@,
{
    let queue = player@.sink.queue;
    let through = waiting.command.call->through;
    assert forall|i: int| 0 <= i < queue.len() implies #[trigger] queue[i] <= through by {
        assert(queue[i] <= queue[queue.len() - 1]);
    }
    law_stop_ended(ends, waiting, answered, through, queue.len() as int);
}

/// A pause shows as paused and a resume as not; each undoes the other, so that after both
/// the player is as after the last alone.
pub proof fn law_pause_then_resume(
    player: &mut LocalPlayer,
    pause: Command,
    resumes: &mut LocalPlayer,
    resume: Command,
    other: &mut LocalPlayer,
    again: Command,
    held: bool,
    running: bool,
)
    requires
        call_ensures(LocalPlayer::pause, (player,), pause),
        call_ensures(LocalPlayer::is_paused, (&*final(player),), held),
        *old(resumes) == *final(player),
        call_ensures(LocalPlayer::resume, (resumes,), resume),
        call_ensures(LocalPlayer::is_paused, (&*final(resumes),), running),
        *old(other) == *old(player),
        call_ensures(LocalPlayer::resume, (other,), again),
    ensures
        held && !running,
        pause.call is Pause && resume.call is Play,
        pause.sink == resume.sink && resume == again,
        final(resumes)@ == final(other)@,
{
}

/// What a look at the handle of the sink in use shows is what the player then says.
pub proof fn law_look_is_what_is_said(
    player: &mut LocalPlayer,
    paused: bool,
    empty: bool,
    says_paused: bool,
    says_finished: bool,
)
    requires
        call_ensures(LocalPlayer::look, (player, old(player)@.sink.serial, paused, empty), ()),
        call_ensures(LocalPlayer::is_paused, (&*final(player),), says_paused),
        call_ensures(LocalPlayer::is_finished, (&*final(player),), says_finished),
    ensures
        says_paused == paused,
        says_finished == empty,
{
}

} // verus!
