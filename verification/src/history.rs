//! What holds of a player over everything that can happen to it.
use vstd::prelude::*;

use crate::device::default_moved;
use crate::limits::{AUDIO_THREAD_CEILING, AUDIO_THREAD_POLL, DEVICE_CHECK_INTERVAL};
use crate::model::PlayerView;
use crate::reopen::{failure_report, Reopen};
use crate::sink::{lemma_queued_after, Call, Command, StreamFault};
use crate::volume::{heard_percent, square_law};
use crate::wait::{PollFinding, Verdict, Wait};

verus! {

/// One thing that happens to a player. Each call that changes a
/// [`LocalPlayer`](crate::LocalPlayer) does one of these, or nothing.
pub enum Happening {
    Paused,
    Played,
    VolumeSet { percent: u8 },
    Stopped { command: Command },
    StageBegun,
    ClearBegun { stage: u64 },
    ClearEnded { command: Command, answered: bool },
    Appended { stage: u64, sink: u64 },
    Faulted { sink: u64, fault: StreamFault },
    LookedAt { sink: u64, paused: bool, empty: bool },
    Checked { opened: Seq<char>, current: Option<Seq<char>>, now: u128 },
    Polled { wait: Wait, finding: PollFinding, now: u128 },
    AttemptBegun { now: u128 },
    Reopened { device_name: Option<Seq<char>> },
    Recovered { device_name: Option<Seq<char>> },
}

impl Happening {
    /// Whether the sink is replaced.
    pub open spec fn replaces_sink(self) -> bool {
        self is Reopened || self is Recovered
    }

    /// Whether the name of the default output is read.
    pub open spec fn reads_the_default(self) -> bool {
        self is Checked || (self matches Happening::Polled { finding, .. } && finding is Read)
    }
}

impl PlayerView {
    /// Whether this can happen to the player as it stands.
    pub open spec fn can(self, what: Happening) -> bool {
        match what {
            Happening::StageBegun => self.generation < u64::MAX,
            Happening::ClearBegun { stage } => self.transition is None && self.current(stage),
            Happening::Stopped { command } => command.call is Clear,
            Happening::ClearEnded { command, .. } => {
                self.transition is Some && command.call is Clear
            },
            Happening::Appended { stage, sink } => {
                self.transition is None && self.accepts(stage, sink)
            },
            Happening::AttemptBegun { now } => self.recovery.due(now),
            _ => true,
        }
    }

    /// The player after this happened.
    pub open spec fn next(self, what: Happening) -> PlayerView {
        match what {
            Happening::Paused => self.called(Call::Pause),
            Happening::Played => self.called(Call::Play),
            Happening::VolumeSet { percent } => self.volume_set(percent),
            Happening::Stopped { command } => self.called_on(command),
            Happening::StageBegun => self.stage_begun(),
            Happening::ClearBegun { stage } => self.clear_begun(stage),
            Happening::ClearEnded { command, answered } => self.clear_ended(command, answered),
            Happening::Appended { stage, .. } => self.called(Call::Append { stage }),
            Happening::Faulted { sink, fault } => self.faulted(sink, fault),
            Happening::LookedAt { sink, paused, empty } => self.looked_at(sink, paused, empty),
            Happening::Checked { opened, current, now } => self.checked(opened, current, now),
            Happening::Polled { wait, finding, now } => self.polled(wait, finding, now),
            Happening::AttemptBegun { now } => self.attempt_begun(now),
            Happening::Reopened { device_name } => self.reopened(device_name),
            Happening::Recovered { device_name } => self.recovered(device_name),
        }
    }

    /// The player after all of this happened, one after the other.
    pub open spec fn after_all(self, history: Seq<Happening>) -> PlayerView
        decreases history.len(),
    {
        if history.len() == 0 {
            self
        } else {
            self.after_all(history.drop_last()).next(history.last())
        }
    }

    /// Whether all of this can happen, one after the other.
    pub open spec fn can_all(self, history: Seq<Happening>) -> bool
        decreases history.len(),
    {
        history.len() == 0 || {
            &&& self.can_all(history.drop_last())
            &&& self.after_all(history.drop_last()).can(history.last())
        }
    }

    /// Whether the numbers of sinks are not used up by this.
    pub open spec fn numbers_suffice(self, what: Happening) -> bool {
        what.replaces_sink() ==> self.sink.serial < u64::MAX
    }

    /// Whether the numbers of sinks are not used up by all of this.
    pub open spec fn numbers_suffice_all(self, history: Seq<Happening>) -> bool
        decreases history.len(),
    {
        history.len() == 0 || {
            &&& self.numbers_suffice_all(history.drop_last())
            &&& self.after_all(history.drop_last()).numbers_suffice(history.last())
        }
    }
}

/// Whatever happens to a valid player, it stays valid: its gain is that of the
/// percent that was last set, no more attempts to reopen are counted than the
/// budget holds, and no stage is on the sink that never began.
pub proof fn law_players_stay_valid(player: PlayerView, history: Seq<Happening>)
    requires
        player.valid(),
        player.can_all(history),
    ensures
        player.after_all(history).valid(),
    decreases history.len(),
{
    if history.len() > 0 {
        law_players_stay_valid(player, history.drop_last());
        lemma_next_is_valid(player.after_all(history.drop_last()), history.last());
    }
}

/// One thing that can happen to a valid player leaves it valid.
pub(crate) proof fn lemma_next_is_valid(player: PlayerView, what: Happening)
    requires
        player.valid(),
        player.can(what),
    ensures
        player.next(what).valid(),
{
    lemma_gain_fits(player.volume_percent);
    if let Happening::VolumeSet { percent } = what {
        lemma_gain_fits(percent);
    }
    lemma_queue_shrinks(player, what);
    let after = player.next(what);
    assert forall|i: int| 0 <= i < after.sink.queue.len() implies #[trigger] after.sink.queue[i]
        <= after.generation by {
        if what is Appended {
            if i < player.sink.queue.len() {
                assert(player.sink.queue[i] <= player.generation);
            }
        } else {
            let stage = after.sink.queue[i];
            let at = choose|k: int|
                0 <= k < player.sink.queue.len() && player.sink.queue[k] == stage;
            assert(player.sink.queue[at] <= player.generation);
        }
    }
}

/// Only an append puts a stage onto the sink: after anything else the queue holds
/// stages that it held before.
pub(crate) proof fn lemma_queue_shrinks(player: PlayerView, what: Happening)
    requires
        player.sink.valid(),
        player.can(what),
    ensures
        !(what is Appended) ==> {
            let queue = player.next(what).sink.queue;
            &&& queue.len() <= player.sink.queue.len()
            &&& forall|i: int|
                0 <= i < queue.len() ==> player.sink.queue.contains(#[trigger] queue[i])
            &&& forall|i: int, j: int|
                0 <= i <= j < queue.len() ==> #[trigger] queue[i] <= #[trigger] queue[j]
        },
{
    if let Happening::Stopped { command } = what {
        if let Call::Clear { through } = command.call {
            lemma_queued_after(player.sink.queue, through);
        }
    }
    if let Happening::ClearEnded { command, .. } = what {
        if let Call::Clear { through } = command.call {
            lemma_queued_after(player.sink.queue, through);
        }
    }
}

proof fn lemma_gain_fits(percent: u8)
    ensures
        0 <= square_law(percent) <= 10_000,
{
    let heard = heard_percent(percent);
    assert(0 <= heard * heard <= 10_000) by (nonlinear_arith)
        requires
            0 <= heard <= 100,
    ;
}

/// Stage numbers and sink numbers never go back. Over a stretch of time the stage
/// number stays as it is exactly where no stage begins, and the number of the sink
/// exactly where the sink is not replaced.
pub proof fn law_numbers_only_rise(player: PlayerView, history: Seq<Happening>)
    requires
        player.can_all(history),
        player.numbers_suffice_all(history),
    ensures
        player.generation <= player.after_all(history).generation,
        player.generation == player.after_all(history).generation <==> (forall|i: int|
            0 <= i < history.len() ==> !(#[trigger] history[i] is StageBegun)),
        player.sink.serial <= player.after_all(history).sink.serial,
        player.sink.serial == player.after_all(history).sink.serial <==> (forall|i: int|
            0 <= i < history.len() ==> !(#[trigger] history[i]).replaces_sink()),
    decreases history.len(),
{
    if history.len() > 0 {
        let earlier = history.drop_last();
        law_numbers_only_rise(player, earlier);
        let last = history.last();
        assert(history[history.len() - 1] == last);
        assert forall|i: int| 0 <= i < earlier.len() implies earlier[i]
            == #[trigger] history[i] by {}
        if !(last is StageBegun) && (forall|i: int|
            0 <= i < earlier.len() ==> !(#[trigger] earlier[i] is StageBegun)) {
            assert forall|i: int| 0 <= i < history.len() implies !(
            #[trigger] history[i] is StageBegun) by {
                if i < earlier.len() {
                    assert(!(earlier[i] is StageBegun));
                }
            }
        }
        if !last.replaces_sink() && (forall|i: int|
            0 <= i < earlier.len() ==> !(#[trigger] earlier[i]).replaces_sink()) {
            assert forall|i: int| 0 <= i < history.len() implies !(
            #[trigger] history[i]).replaces_sink() by {
                if i < earlier.len() {
                    assert(!earlier[i].replaces_sink());
                }
            }
        }
    }
}

/// A stage that began on a sink may append to it later on exactly where, since
/// then, no other stage began and the sink was not replaced.
pub proof fn law_undisturbed_stage_is_accepted(player: PlayerView, history: Seq<Happening>)
    requires
        player.can_all(history),
        player.numbers_suffice_all(history),
    ensures
        player.after_all(history).accepts(player.generation, player.sink.serial) <==> (forall|
            i: int,
        |
            0 <= i < history.len() ==> !(#[trigger] history[i] is StageBegun)
                && !history[i].replaces_sink()),
{
    law_numbers_only_rise(player, history);
}

/// A sink that lost its device stays lost until it is replaced: until then every
/// call that would wait on the audio thread is refused, and the device reads as
/// lost at any time.
pub proof fn law_lost_until_replaced(player: PlayerView, history: Seq<Happening>, now: u128)
    requires
        player.sink.lost,
        forall|i: int| 0 <= i < history.len() ==> !(#[trigger] history[i]).replaces_sink(),
    ensures
        player.after_all(history).sink.lost,
        player.after_all(history).known_loss(now) == Some(true),
        player.after_all(history).refuses(now),
    decreases history.len(),
{
    if history.len() > 0 {
        let earlier = history.drop_last();
        assert forall|i: int| 0 <= i < earlier.len() implies !(
        #[trigger] earlier[i]).replaces_sink() by {
            assert(!history[i].replaces_sink());
        }
        law_lost_until_replaced(player, earlier, now);
        assert(!history[history.len() - 1].replaces_sink());
    }
}

/// The volume changes only where it is set: not when a track is staged, and not
/// when the device is reopened.
pub proof fn law_only_setting_changes_the_volume(player: PlayerView, history: Seq<Happening>)
    requires
        player.valid(),
        player.can_all(history),
        forall|i: int| 0 <= i < history.len() ==> !(#[trigger] history[i] is VolumeSet),
    ensures
        player.after_all(history).volume_percent == player.volume_percent,
        player.after_all(history).sink.gain == player.sink.gain,
    decreases history.len(),
{
    if history.len() > 0 {
        let earlier = history.drop_last();
        assert forall|i: int| 0 <= i < earlier.len() implies !(
        #[trigger] earlier[i] is VolumeSet) by {
            assert(!(history[i] is VolumeSet));
        }
        law_only_setting_changes_the_volume(player, earlier);
        assert(!(history[history.len() - 1] is VolumeSet));
        law_players_stay_valid(player, earlier);
        lemma_gain_fits(player.volume_percent);
    }
}

/// A reopened sink is another one than before: alive, empty and paused, at the gain
/// of the percent that was last set, and named after the device it was opened on.
/// The default output has to be read anew for it, and a sink opened on the current
/// default does not read as lost. Nothing else changes.
pub proof fn law_reopened_sink(player: PlayerView, device_name: Option<Seq<char>>, now: u128)
    requires
        player.valid(),
    ensures
        ({
            let reopened = player.reopened(device_name);
            &&& reopened.sink.serial != player.sink.serial
            &&& reopened.sink.device_name == device_name
            &&& !reopened.sink.lost
            &&& reopened.sink.queue.len() == 0
            &&& reopened.sink.finished
            &&& reopened.sink.paused
            &&& reopened.sink.gain == square_law(player.volume_percent)
            &&& reopened.sink.gain == player.sink.gain
            &&& reopened.volume_percent == player.volume_percent
            &&& reopened.generation == player.generation
            &&& reopened.transition == player.transition
            &&& reopened.recovery == player.recovery
            &&& reopened.device_check is None
            &&& reopened.known_loss(now) != Some(true)
            &&& device_name matches Some(name) ==> {
                &&& reopened.known_loss(now) is None
                &&& reopened.checked(name, device_name, now).known_loss(now) == Some(false)
            }
        }),
{
    lemma_gain_fits(player.volume_percent);
}

/// A name that cannot be read is never evidence of a loss: neither that of the
/// device the sink was opened on nor that of the current default.
pub proof fn law_unreadable_name_is_no_loss(player: PlayerView, opened: Seq<char>, now: u128)
    requires
        !player.sink.lost,
    ensures
        player.sink.device_name is None ==> player.known_loss(now) == Some(false),
        player.sink.device_name == Some(opened) ==> player.checked(
            opened,
            None,
            now,
        ).known_loss(now) == Some(false),
{
}

/// A default output with another name than the device of a live sink reads as a
/// loss, and one with the same name, or with none that can be read, does not. That
/// answer stands for the interval after the read, and no longer, whatever else
/// happens, unless the default is read again, the sink is replaced or its device is
/// lost: until then it refuses every call that waits on the audio thread, or admits
/// every one.
pub proof fn law_read_answers_for_the_interval(
    player: PlayerView,
    opened: Seq<char>,
    current: Option<Seq<char>>,
    read_at: u128,
    history: Seq<Happening>,
    now: u128,
)
    requires
        player.sink.device_name == Some(opened),
        read_at <= now,
        forall|i: int|
            0 <= i < history.len() ==> !(#[trigger] history[i]).reads_the_default()
                && !history[i].replaces_sink(),
        !player.checked(opened, current, read_at).after_all(history).sink.lost,
    ensures
        ({
            let later = player.checked(opened, current, read_at).after_all(history);
            if now - read_at < DEVICE_CHECK_INTERVAL {
                &&& later.known_loss(now) == Some(default_moved(opened, current))
                &&& later.refuses(now) == default_moved(opened, current)
                &&& later.admits(now) == !default_moved(opened, current)
            } else {
                &&& later.known_loss(now) is None
                &&& later.asks_for(opened, now)
            }
        }),
{
    lemma_check_stays(player.checked(opened, current, read_at), history);
}

proof fn lemma_check_stays(player: PlayerView, history: Seq<Happening>)
    requires
        forall|i: int|
            0 <= i < history.len() ==> !(#[trigger] history[i]).reads_the_default()
                && !history[i].replaces_sink(),
    ensures
        player.after_all(history).device_check == player.device_check,
        player.after_all(history).sink.device_name == player.sink.device_name,
    decreases history.len(),
{
    if history.len() > 0 {
        let earlier = history.drop_last();
        assert forall|i: int| 0 <= i < earlier.len() implies !(
        #[trigger] earlier[i]).reads_the_default() && !earlier[i].replaces_sink() by {
            assert(!history[i].reads_the_default() && !history[i].replaces_sink());
        }
        lemma_check_stays(player, earlier);
        let last = history[history.len() - 1];
        assert(!last.reads_the_default() && !last.replaces_sink());
    }
}

/// A sink that is swapped in is never answered from a read that was made for a
/// device of another name.
pub proof fn law_read_is_for_one_name(
    player: PlayerView,
    opened: Seq<char>,
    current: Option<Seq<char>>,
    read_at: u128,
    now: u128,
)
    requires
        !player.sink.lost,
        player.sink.device_name is Some,
        player.sink.device_name != Some(opened),
    ensures
        player.checked(opened, current, read_at).known_loss(now) is None,
{
}

/// A wait gives up at its first poll after its sink was replaced, or after its
/// device is known to be lost, and changes nothing of the player then.
pub proof fn law_wait_gives_up_at_once(player: PlayerView, wait: Wait, now: u128)
    requires
        wait.sink != player.sink.serial || player.known_loss(now) == Some(true),
    ensures
        player.poll_verdict(wait, PollFinding::Known, now) == Verdict::GaveUp,
        player.polled(wait, PollFinding::Known, now) == player,
{
}

/// A wait never declares a sink lost other than its own: one that was swapped in
/// under it keeps its state, whatever the wait finds.
pub proof fn law_wait_spares_other_sinks(
    player: PlayerView,
    wait: Wait,
    finding: PollFinding,
    now: u128,
)
    requires
        wait.sink != player.sink.serial,
    ensures
        player.polled(wait, finding, now).sink == player.sink,
{
}

/// A wait declares its sink lost only past the ceiling, and a wait past the
/// ceiling that still goes by its own sink and finds nothing wrong with the device
/// does so: an audio thread that does not answer is the last detector of a loss.
pub proof fn law_ceiling_is_the_last_detector(
    player: PlayerView,
    wait: Wait,
    finding: PollFinding,
    now: u128,
)
    requires
        !player.sink.lost,
    ensures
        player.polled(wait, finding, now).sink.lost ==> PlayerView::overdue(wait, now),
        PlayerView::overdue(wait, now) && wait.sink == player.sink.serial && (match finding {
            PollFinding::Known => player.known_loss(now) == Some(false),
            PollFinding::Read { opened, current } => !default_moved(opened, current),
        }) ==> {
            &&& player.polled(wait, finding, now).sink.lost
            &&& player.poll_verdict(wait, finding, now) == Verdict::GaveUp
        },
{
}

/// No wait goes on past the ceiling, so none goes on for ever: whatever the
/// player is like at each poll and whatever the poll finds, a wait whose polls are
/// each a poll interval after the one before goes on fewer times than the ceiling
/// holds poll intervals.
pub proof fn law_waits_end(
    wait: Wait,
    players: Seq<PlayerView>,
    findings: Seq<PollFinding>,
    times: Seq<u128>,
)
    requires
        players.len() == times.len(),
        findings.len() == times.len(),
        forall|i: int|
            0 <= i < times.len() ==> (#[trigger] players[i]).poll_verdict(
                wait,
                findings[i],
                times[i],
            ) == Verdict::KeepWaiting,
        times.len() > 0 ==> times[0] >= wait.started + AUDIO_THREAD_POLL,
        forall|i: int|
            0 < i < times.len() ==> #[trigger] times[i] >= times[i - 1] + AUDIO_THREAD_POLL,
    ensures
        forall|i: int|
            0 <= i < times.len() ==> #[trigger] times[i] < wait.started + AUDIO_THREAD_CEILING,
        times.len() * AUDIO_THREAD_POLL < AUDIO_THREAD_CEILING,
{
    assert forall|i: int| 0 <= i < times.len() implies #[trigger] times[i] < wait.started
        + AUDIO_THREAD_CEILING by {
        assert(players[i].poll_verdict(wait, findings[i], times[i]) == Verdict::KeepWaiting);
    }
    if times.len() > 0 {
        lemma_polls_take_time(wait, times, times.len() - 1);
    }
}

proof fn lemma_polls_take_time(wait: Wait, times: Seq<u128>, last: int)
    requires
        0 <= last < times.len(),
        times[0] >= wait.started + AUDIO_THREAD_POLL,
        forall|i: int|
            0 < i < times.len() ==> #[trigger] times[i] >= times[i - 1] + AUDIO_THREAD_POLL,
    ensures
        times[last] >= wait.started + (last + 1) * AUDIO_THREAD_POLL,
    decreases last,
{
    if last > 0 {
        lemma_polls_take_time(wait, times, last - 1);
    }
}

/// A poll asks for at most one read of the default output: what was read settles
/// it.
pub proof fn law_one_read_settles_a_poll(
    player: PlayerView,
    wait: Wait,
    opened: Seq<char>,
    current: Option<Seq<char>>,
    now: u128,
)
    ensures
        player.poll_verdict(wait, PollFinding::Read { opened, current }, now) == Verdict::GaveUp
            || player.poll_verdict(wait, PollFinding::Read { opened, current }, now)
            == Verdict::KeepWaiting,
{
}

/// Pausing holds playback and resuming lets it run, and neither touches the track
/// or the volume.
pub proof fn law_pause_and_resume(player: PlayerView)
    ensures
        ({
            let paused = player.called(Call::Pause);
            let resumed = player.called(Call::Play);
            &&& paused.sink.paused && !resumed.sink.paused
            &&& paused.sink.queue == player.sink.queue && resumed.sink.queue == player.sink.queue
            &&& paused.sink.gain == player.sink.gain && resumed.sink.gain == player.sink.gain
        }),
{
}

/// A stop that is answered leaves the sink paused, and finished unless a track was
/// staged since it was asked for: that one is taken to stay, until a look at the
/// handle shows otherwise. A sink that was swapped in meanwhile is left as it is.
pub proof fn law_stopped_is_finished(before: PlayerView, player: PlayerView, sink: u64)
    requires
        player.valid(),
    ensures
        ({
            let through = before.sink.newest();
            let stopped = player.called_on(Command { sink, call: Call::Clear { through } });
            if sink == player.sink.serial {
                &&& stopped.sink.paused
                &&& (forall|i: int|
                    0 <= i < player.sink.queue.len() ==> #[trigger] player.sink.queue[i]
                        <= through) ==> stopped.sink.finished && stopped.sink.queue.len() == 0
                &&& forall|i: int|
                    0 <= i < player.sink.queue.len() && player.sink.queue[i] > through
                        ==> stopped.sink.queue.contains(#[trigger] player.sink.queue[i])
                        && !stopped.sink.finished
            } else {
                stopped == player
            }
        }),
{
    let through = before.sink.newest();
    lemma_queued_after(player.sink.queue, through);
}

/// A stop with nothing in between empties the sink.
pub proof fn law_undisturbed_stop_empties_the_sink(player: PlayerView)
    requires
        player.valid(),
    ensures
        ({
            let call = Call::Clear { through: player.sink.newest() };
            let stopped = player.called_on(Command { sink: player.sink.serial, call });
            stopped.sink.queue.len() == 0 && stopped.sink.finished && stopped.sink.paused
        }),
{
    lemma_queued_after(player.sink.queue, player.sink.newest());
}

/// A device that is gone refuses every call that would wait on the audio thread,
/// in whichever way it is gone: removed, or left by the default output, as the read
/// shows that answers at the time. A call is made only where no loss is known, and
/// none is made where a read is due.
pub proof fn law_gone_device_refuses(
    player: PlayerView,
    opened: Seq<char>,
    current: Seq<char>,
    read_at: u128,
    now: u128,
)
    ensures
        player.sink.lost ==> player.refuses(now),
        player.sink.device_name == Some(opened) && current != opened && read_at <= now < read_at
            + DEVICE_CHECK_INTERVAL ==> player.checked(opened, Some(current), read_at).refuses(now),
        player.admits(now) ==> !player.sink.lost && !player.refuses(now),
        player.known_loss(now) is None ==> !player.admits(now) && !player.refuses(now),
{
}

/// A caller that is asked for a read and makes it has its answer: the call is made
/// where the default output still has the name that was asked about or has no
/// readable one, and refused otherwise.
pub proof fn law_read_settles_admission(
    player: PlayerView,
    opened: Seq<char>,
    current: Option<Seq<char>>,
    now: u128,
)
    requires
        player.asks_for(opened, now),
    ensures
        player.checked(opened, current, now).refuses(now) == default_moved(opened, current),
        player.checked(opened, current, now).admits(now) == !default_moved(opened, current),
{
}

/// A tick that asks for recovery and whose attempt fails does to the attempts what
/// [`RecoveryView::failing_tick`](crate::reopen::RecoveryView::failing_tick) says,
/// and reports the same.
pub proof fn law_failing_tick_is_a_failed_attempt(player: PlayerView, now: u128)
    ensures
        player.recovery.failing_tick(now) == if player.recovery.due(now) {
            (
                player.attempt_begun(now).recovery,
                failure_report(player.attempt_begun(now).recovery.attempts),
            )
        } else {
            (player.recovery, Reopen::Waiting)
        },
{
}

/// A look at the handle decides what the player says of it, both ways.
pub proof fn law_look_decides(player: PlayerView, paused: bool, empty: bool)
    ensures
        player.looked_at(player.sink.serial, paused, empty).sink.finished == empty,
        player.looked_at(player.sink.serial, paused, empty).sink.paused == paused,
{
}

} // verus!
