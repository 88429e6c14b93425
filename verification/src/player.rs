//! The player: every decision about the output, and the record of what was asked
//! of it.
//!
//! The player makes no call on a device itself. Where one is due it hands out a
//! [`Command`] with the number of the sink that it is for, and where it needs to
//! know something it says what to read. Its caller makes the call and reports
//! back what came of it.
use vstd::prelude::*;

use crate::device::{check_view, default_moved, Admission, DeviceCheck, DeviceProbe};
use crate::error::PlayerError;
use crate::history::{lemma_next_is_valid, Happening};
use crate::limits::{time_since, AUDIO_THREAD_CEILING};
use crate::model::PlayerView;
use crate::open::Opened;
use crate::reopen::{failure_report, report_failure, Recovery, Reopen, ReopenState};
use crate::sink::{text_view, Call, Command, Sink, StreamFault};
use crate::stage::{
    Cleared, Clearing, ClearingView, PendingStage, PendingView, Ready, Stage, StageStart, Staged,
    TrackSource,
};
use crate::stream::{DecoderPlan, PreparedStream};
use crate::volume::{square_law, volume_gain};
use crate::wait::{PollFinding, Wait, WaitEvent, WaitStep, Waiting};

verus! {

/// An audio player that drives the system default output device.
pub struct LocalPlayer {
    /// Replaced whole when the device is reopened.
    sink: Sink,
    /// The last percent that was set, which a reopened sink is set to again, so
    /// that a device change is not also a volume jump.
    volume_percent: u8,
    /// The last read of the default output.
    device_check: Option<DeviceCheck>,
    /// Attempts to reopen the device since it was lost.
    reopen: ReopenState,
    /// Counts the stages that began, so that a stage that a later one overtook
    /// never touches the sink after it.
    stage_generation: u64,
    /// The stage whose clear is under way.
    stage_transition: Option<u64>,
}

impl View for LocalPlayer {
    type V = PlayerView;

    closed spec fn view(&self) -> PlayerView {
        PlayerView {
            sink: self.sink@,
            volume_percent: self.volume_percent,
            device_check: check_view(self.device_check),
            recovery: self.reopen@,
            generation: self.stage_generation,
            transition: self.stage_transition,
        }
    }
}

/// The view of what opening the device came to.
pub open spec fn opened_on(opened: Opened) -> Option<Seq<char>> {
    text_view(opened.device_name)
}

impl LocalPlayer {
    /// Takes over the device that was opened: the sink is paused, since nothing is
    /// queued until the first track. Fails as the opening did.
    pub fn new(opened: Result<Opened, PlayerError>) -> (player: Result<
        (LocalPlayer, Command),
        PlayerError,
    >)
        ensures
            match opened {
                Ok(device) => {
                    &&& player matches Ok((made, command))
                    &&& made@ == PlayerView::started(opened_on(device))
                    &&& made@.valid()
                    &&& command == (Command { sink: 0, call: Call::Pause })
                },
                Err(error) => player == Err::<(LocalPlayer, Command), PlayerError>(error),
            },
    {
        let device = match opened {
            Ok(device) => device,
            Err(error) => return Err(error),
        };
        let mut sink = Sink::connect(0, device.device_name);
        sink.record(Call::Pause);
        let player = LocalPlayer {
            sink,
            volume_percent: 100,
            device_check: None,
            reopen: ReopenState::default(),
            stage_generation: 0,
            stage_transition: None,
        };
        proof {
            crate::volume::law_curve_ends(100);
        }
        Ok((player, Command { sink: 0, call: Call::Pause }))
    }

    // ------------------------------------------------------------------
    // The sink in use
    // ------------------------------------------------------------------

    /// The number of the sink in use, for the calls that cannot block.
    pub fn player(&self) -> (sink: u64)
        ensures
            sink == self@.sink.serial,
    {
        self.sink.serial()
    }

    /// The number of the sink in use, for the calls that wait on the audio thread.
    /// Waiting there never returns once the device is gone, whether it was removed or
    /// the default output moved away from it. So this is granted only where no loss
    /// is known, and where a read of the default output is due, that read is asked
    /// for first.
    pub fn live_player(&self, now: u128) -> (sink: Admission<u64>)
        ensures
            self@.answers(self@.sink.serial, now, sink),
    {
        match self.device_lost(now) {
            DeviceProbe::Known { lost: true } => {
                Admission::Refused { error: PlayerError::Disconnected }
            },
            DeviceProbe::Known { lost: false } => Admission::Granted { value: self.sink.serial() },
            DeviceProbe::ReadDefault { opened } => Admission::ReadDefault { opened },
        }
    }

    /// Takes a fault that the backend reported of the stream of one sink. Only the
    /// loss of the device counts, and only for the sink it was reported of.
    pub fn stream_fault(&mut self, sink: u64, fault: StreamFault)
        requires
            old(self)@.valid(),
        ensures
            final(self)@ == old(self)@.faulted(sink, fault),
            final(self)@.valid(),
    {
        match fault {
            StreamFault::DeviceNotAvailable => {
                self.charge(sink);
            },
            StreamFault::StreamInvalidated => {},
            StreamFault::BufferUnderrun => {},
            StreamFault::BackendSpecific => {},
        }
    }

    /// Declares one sink lost, unless it was replaced.
    fn charge(&mut self, sink: u64)
        requires
            old(self)@.valid(),
        ensures
            final(self)@ == old(self)@.charged(sink),
            final(self)@.valid(),
    {
        if sink == self.sink.serial() {
            self.sink.record_loss();
        }
    }

    /// Takes what a look at the handle of one sink shows: whether it is paused,
    /// and whether it has nothing left to play.
    pub fn look(&mut self, sink: u64, paused: bool, empty: bool)
        requires
            old(self)@.valid(),
        ensures
            final(self)@ == old(self)@.looked_at(sink, paused, empty),
            final(self)@.valid(),
    {
        if sink == self.sink.serial() {
            self.sink.record_look(paused, empty);
        }
    }

    // ------------------------------------------------------------------
    // Losing the device
    // ------------------------------------------------------------------

    /// Whether the device was reported *removed*, as against the system merely
    /// making another one its default. Recovery pauses only for removal: a device
    /// that the user just plugged in should keep playing.
    pub fn device_removed(&self) -> (removed: bool)
        ensures
            removed == self@.sink.lost,
    {
        self.sink.is_lost()
    }

    /// Whether the sink lost everything that the user can hear, or which name the
    /// default output has to be compared with to tell.
    pub fn device_lost(&self, now: u128) -> (probe: DeviceProbe)
        ensures
            match probe {
                DeviceProbe::Known { lost } => self@.known_loss(now) == Some(lost),
                DeviceProbe::ReadDefault { opened } => {
                    &&& self@.known_loss(now) is None
                    &&& self@.sink.device_name == Some(opened@)
                },
            },
    {
        if self.sink.is_lost() {
            return DeviceProbe::Known { lost: true };
        }
        let opened = match self.sink.device_name() {
            Some(opened) => opened,
            None => return DeviceProbe::Known { lost: false },
        };
        match &self.device_check {
            Some(cached) => {
                if cached.still_answers(&opened, now) {
                    return DeviceProbe::Known { lost: cached.moved };
                }
            },
            None => {},
        }
        DeviceProbe::ReadDefault { opened }
    }

    /// Takes the name of the default output, read for a sink opened on `opened`,
    /// and says whether the default moved away from it.
    pub fn default_output_read(
        &mut self,
        opened: String,
        current: Option<String>,
        now: u128,
    ) -> (moved: bool)
        requires
            old(self)@.valid(),
        ensures
            moved == default_moved(opened@, text_view(current)),
            final(self)@ == old(self)@.checked(opened@, text_view(current), now),
            final(self)@.valid(),
    {
        let check = DeviceCheck::compare_names(opened, &current, now);
        let moved = check.moved;
        self.device_check = Some(check);
        moved
    }

    // ------------------------------------------------------------------
    // Waiting on the audio thread
    // ------------------------------------------------------------------

    /// A call on the sink in use that waits on the audio thread, with the wait for its
    /// answer.
    fn bounded(&self, call: Call, now: u128) -> (waiting: Admission<Waiting>)
        ensures
            self@.answers(
                Waiting {
                    command: Command { sink: self@.sink.serial, call },
                    wait: Wait { sink: self@.sink.serial, started: now },
                },
                now,
                waiting,
            ),
    {
        match self.live_player(now) {
            Admission::Granted { value } => Admission::Granted {
                value: Waiting {
                    command: Command { sink: value, call },
                    wait: Wait { sink: value, started: now },
                },
            },
            Admission::Refused { error } => Admission::Refused { error },
            Admission::ReadDefault { opened } => Admission::ReadDefault { opened },
        }
    }

    /// Takes what happened during a wait and says what to do next.
    ///
    /// A poll gives up at once where the sink was replaced, or where its device is
    /// lost. An unanswered poll past the ceiling declares the sink lost that the
    /// wait belongs to, and no other.
    pub fn wait_event(&mut self, wait: &Wait, event: WaitEvent, now: u128) -> (step: WaitStep)
        requires
            old(self)@.valid(),
        ensures
            final(self)@.valid(),
            match event {
                WaitEvent::Answered => step is Finished && final(self)@ == old(self)@,
                WaitEvent::WorkerGone => step is GaveUp && final(self)@ == old(self)@,
                WaitEvent::PollElapsed => {
                    &&& step.verdict() == old(self)@.poll_verdict(*wait, PollFinding::Known, now)
                    &&& step matches WaitStep::ReadDefault { opened }
                        ==> old(self)@.sink.device_name == Some(opened@)
                    &&& final(self)@ == old(self)@.polled(*wait, PollFinding::Known, now)
                },
                WaitEvent::DefaultOutput { opened, current } => {
                    let finding = PollFinding::Read {
                        opened: opened@,
                        current: text_view(current),
                    };
                    &&& step.verdict() == old(self)@.poll_verdict(*wait, finding, now)
                    &&& final(self)@ == old(self)@.polled(*wait, finding, now)
                },
            },
    {
        match event {
            WaitEvent::Answered => WaitStep::Finished,
            WaitEvent::WorkerGone => WaitStep::GaveUp,
            WaitEvent::PollElapsed => {
                if wait.sink != self.sink.serial() {
                    return WaitStep::GaveUp;
                }
                match self.device_lost(now) {
                    DeviceProbe::Known { lost } => {
                        if lost {
                            WaitStep::GaveUp
                        } else {
                            self.check_ceiling(wait, now)
                        }
                    },
                    DeviceProbe::ReadDefault { opened } => WaitStep::ReadDefault { opened },
                }
            },
            WaitEvent::DefaultOutput { opened, current } => {
                if self.default_output_read(opened, current, now) {
                    WaitStep::GaveUp
                } else {
                    self.check_ceiling(wait, now)
                }
            },
        }
    }

    /// Goes on with a wait until it runs into the ceiling.
    fn check_ceiling(&mut self, wait: &Wait, now: u128) -> (step: WaitStep)
        requires
            old(self)@.valid(),
        ensures
            final(self)@ == old(self)@.waited(*wait, now),
            final(self)@.valid(),
            step.verdict() == PlayerView::ceiling_verdict(*wait, now),
    {
        if time_since(wait.started, now) >= AUDIO_THREAD_CEILING {
            self.charge(wait.sink);
            WaitStep::GaveUp
        } else {
            WaitStep::KeepWaiting
        }
    }

    // ------------------------------------------------------------------
    // Recovering the device
    // ------------------------------------------------------------------

    /// Replaces the sink by the one that was opened, and drops the dead one.
    ///
    /// The new sink starts paused and empty, at the volume the old one had; the
    /// commands that make it so are to be carried out in their order before
    /// anybody else can see it. Where the opening failed, nothing changes.
    pub fn reopen(&mut self, opened: Result<Opened, PlayerError>) -> (setup: Result<
        Vec<Command>,
        PlayerError,
    >)
        requires
            old(self)@.valid(),
        ensures
            final(self)@.valid(),
            match opened {
                Ok(device) => {
                    &&& final(self)@ == old(self)@.reopened(opened_on(device))
                    &&& setup matches Ok(commands)
                    &&& commands@ == seq![
                        Command { sink: final(self)@.sink.serial, call: Call::Pause },
                        Command {
                            sink: final(self)@.sink.serial,
                            call: Call::SetVolume {
                                gain: square_law(old(self)@.volume_percent) as u16,
                            },
                        },
                    ]
                },
                Err(error) => {
                    &&& final(self)@ == old(self)@
                    &&& setup == Err::<Vec<Command>, PlayerError>(error)
                },
            },
    {
        let device = match opened {
            Ok(device) => device,
            Err(error) => return Err(error),
        };
        let serial: u64 = if self.sink.serial() == u64::MAX {
            0
        } else {
            self.sink.serial() + 1
        };
        let gain: u16 = volume_gain(self.volume_percent);
        let mut fresh = Sink::connect(serial, device.device_name);
        fresh.record(Call::Pause);
        fresh.record(Call::SetVolume { gain });
        self.sink = fresh;
        self.device_check = None;
        let mut commands: Vec<Command> = Vec::new();
        commands.push(Command { sink: serial, call: Call::Pause });
        commands.push(Command { sink: serial, call: Call::SetVolume { gain } });
        Ok(commands)
    }

    /// Asks for recovery of the device: an attempt every
    /// [`DEVICE_REOPEN_RETRY_AFTER`](crate::DEVICE_REOPEN_RETRY_AFTER) up to
    /// [`DEVICE_REOPEN_ATTEMPTS`](crate::DEVICE_REOPEN_ATTEMPTS), so that a device
    /// that is still negotiating gets its chance, and one that never comes back is
    /// given up on exactly once.
    pub fn recover_device(&mut self, now: u128) -> (recovery: Recovery)
        requires
            old(self)@.valid(),
        ensures
            final(self)@.valid(),
            if old(self)@.recovery.due(now) {
                &&& final(self)@ == old(self)@.attempt_begun(now)
                &&& recovery == (Recovery::Attempt { number: final(self)@.recovery.attempts })
            } else {
                &&& final(self)@ == old(self)@
                &&& recovery == Recovery::Settled(Reopen::Waiting)
            },
    {
        self.reopen.begin_attempt(now)
    }

    /// Ends the attempt with this number with what opening the device came to. The
    /// commands are those of [`reopen`](Self::reopen), and none where it failed.
    pub fn recovery_ended(&mut self, attempt: u8, opened: Result<Opened, PlayerError>) -> (ended: (
        Reopen,
        Vec<Command>,
    ))
        requires
            old(self)@.valid(),
        ensures
            final(self)@.valid(),
            match opened {
                Ok(device) => {
                    &&& final(self)@ == old(self)@.recovered(opened_on(device))
                    &&& ended.0 == Reopen::Reopened
                    &&& ended.1@ == seq![
                        Command { sink: final(self)@.sink.serial, call: Call::Pause },
                        Command {
                            sink: final(self)@.sink.serial,
                            call: Call::SetVolume {
                                gain: square_law(old(self)@.volume_percent) as u16,
                            },
                        },
                    ]
                },
                Err(_) => {
                    &&& final(self)@ == old(self)@
                    &&& ended.0 == failure_report(attempt)
                    &&& ended.1@ == Seq::<Command>::empty()
                },
            },
    {
        match self.reopen(opened) {
            Ok(commands) => {
                self.reopen = ReopenState::default();
                (Reopen::Reopened, commands)
            },
            Err(_) => (report_failure(attempt), Vec::new()),
        }
    }

    // ------------------------------------------------------------------
    // Staging a track
    // ------------------------------------------------------------------

    /// The number of the last stage that began.
    pub fn stage_generation(&self) -> (stage: u64)
        ensures
            stage == self@.generation,
    {
        self.stage_generation
    }

    /// Starts a stage: the number that it must still hold at each change of the
    /// sink.
    pub fn begin_stage(&mut self) -> (stage: u64)
        requires
            old(self)@.valid(),
            old(self)@.generation < u64::MAX,
        ensures
            stage == old(self)@.generation + 1,
            final(self)@ == old(self)@.stage_begun(),
            final(self)@.valid(),
    {
        self.stage_generation = self.stage_generation + 1;
        self.stage_generation
    }

    /// Admits a stage that began to the sink in use, where no loss of the device is
    /// known. Asked for again once a read that was due has been made.
    pub fn admit_stage(&self, pending: PendingStage, now: u128) -> (start: StageStart)
        ensures
            self@.answers_stage(pending@, now, start),
    {
        match self.live_player(now) {
            Admission::Granted { value } => StageStart::Begun {
                stage: Stage {
                    generation: pending.generation,
                    sink: value,
                    source: pending.source,
                    then_play: pending.then_play,
                },
            },
            Admission::Refused { error } => StageStart::Refused { error },
            Admission::ReadDefault { opened } => StageStart::ReadDefault { opened, pending },
        }
    }

    /// Begins to stage a track from `source`. The stage counts as begun whether or
    /// not it is admitted: it overtakes those before it.
    fn stage_track(&mut self, source: TrackSource, then_play: bool, now: u128) -> (start:
        StageStart)
        requires
            old(self)@.valid(),
            old(self)@.generation < u64::MAX,
        ensures
            final(self)@ == old(self)@.stage_begun(),
            final(self)@.valid(),
            final(self)@.answers_stage(
                PendingView { generation: final(self)@.generation, source, then_play },
                now,
                start,
            ),
    {
        let generation: u64 = self.begin_stage();
        self.admit_stage(PendingStage { generation, source, then_play }, now)
    }

    /// Begins to play the file at `path`, replacing whatever was playing.
    pub fn play_file(&mut self, path: String, now: u128) -> (start: StageStart)
        requires
            old(self)@.valid(),
            old(self)@.generation < u64::MAX,
        ensures
            final(self)@ == old(self)@.stage_begun(),
            final(self)@.valid(),
            final(self)@.answers_stage(
                PendingView {
                    generation: final(self)@.generation,
                    source: TrackSource::File { path },
                    then_play: true,
                },
                now,
                start,
            ),
    {
        self.stage_track(TrackSource::File { path }, true, now)
    }

    /// [`play_file`](Self::play_file) without the final play: the track is queued
    /// and the sink left paused, so a caller that must seek first, or stay paused,
    /// never plays a burst of the start of the track.
    pub fn stage_file(&mut self, path: String, now: u128) -> (start: StageStart)
        requires
            old(self)@.valid(),
            old(self)@.generation < u64::MAX,
        ensures
            final(self)@ == old(self)@.stage_begun(),
            final(self)@.valid(),
            final(self)@.answers_stage(
                PendingView {
                    generation: final(self)@.generation,
                    source: TrackSource::File { path },
                    then_play: false,
                },
                now,
                start,
            ),
    {
        self.stage_track(TrackSource::File { path }, false, now)
    }

    /// Plans the decoder of a stream. No sink changes, so the caller can decide
    /// for itself whether the stream is still wanted.
    ///
    /// With `byte_len` the reader is seekable and the decoder knows the total
    /// size. Without it the decoder must never seek in its reader.
    pub fn prepare_stream(mime_type: Option<&str>, byte_len: Option<u64>) -> (plan: DecoderPlan)
        ensures
            plan.seekable == (byte_len is Some),
            plan.byte_len == byte_len,
            match mime_type {
                Some(mime) => text_view(plan.mime_type) == Some(mime@),
                None => plan.mime_type is None,
            },
    {
        let mime_type = match mime_type {
            Some(mime) => Some(mime.to_owned()),
            None => None,
        };
        DecoderPlan { seekable: byte_len.is_some(), byte_len, mime_type }
    }

    /// Begins to play a prepared stream, replacing whatever was playing.
    pub fn play_prepared(&mut self, prepared: PreparedStream, now: u128) -> (start: StageStart)
        requires
            old(self)@.valid(),
            old(self)@.generation < u64::MAX,
        ensures
            final(self)@ == old(self)@.stage_begun(),
            final(self)@.valid(),
            final(self)@.answers_stage(
                PendingView {
                    generation: final(self)@.generation,
                    source: TrackSource::Stream { prepared },
                    then_play: true,
                },
                now,
                start,
            ),
    {
        self.stage_track(TrackSource::Stream { prepared }, true, now)
    }

    /// [`play_prepared`](Self::play_prepared) without the final play, like
    /// [`stage_file`](Self::stage_file).
    pub fn stage_prepared(&mut self, prepared: PreparedStream, now: u128) -> (start: StageStart)
        requires
            old(self)@.valid(),
            old(self)@.generation < u64::MAX,
        ensures
            final(self)@ == old(self)@.stage_begun(),
            final(self)@.valid(),
            final(self)@.answers_stage(
                PendingView {
                    generation: final(self)@.generation,
                    source: TrackSource::Stream { prepared },
                    then_play: false,
                },
                now,
                start,
            ),
    {
        self.stage_track(TrackSource::Stream { prepared }, false, now)
    }

    /// Begins to clear the sink for a stage, unless a later stage began since.
    ///
    /// The clear and the append of a stage are serialized with those of all
    /// others, each with the check in front of it: an overtaken stage can neither
    /// clear a newer track nor append behind it. So no clear may be under way.
    pub fn clear_for_stage(&mut self, stage: Stage, now: u128) -> (clearing: Result<
        Clearing,
        PlayerError,
    >)
        requires
            old(self)@.valid(),
            old(self)@.transition is None,
        ensures
            final(self)@.valid(),
            if old(self)@.current(stage@.generation) {
                &&& final(self)@ == old(self)@.clear_begun(stage@.generation)
                &&& clearing matches Ok(begun)
                &&& begun@ == (ClearingView {
                    stage: stage@,
                    through: old(self)@.sink.newest(),
                    started: now,
                })
            } else {
                &&& final(self)@ == old(self)@
                &&& clearing == Err::<Clearing, PlayerError>(PlayerError::Superseded)
            },
    {
        if self.stage_generation != stage.generation {
            return Err(PlayerError::Superseded);
        }
        self.stage_transition = Some(stage.generation);
        Ok(Clearing { stage, through: self.sink.newest(), started: now })
    }

    /// Ends the clear of a stage, which the audio thread answered or did not.
    pub fn stage_cleared(&mut self, clearing: Clearing, answered: bool) -> (cleared: Result<
        Cleared,
        PlayerError,
    >)
        requires
            old(self)@.valid(),
            old(self)@.transition == Some(clearing@.stage.generation),
        ensures
            final(self)@ == old(self)@.clear_ended(clearing@.command(), answered),
            final(self)@.valid(),
            if answered {
                cleared matches Ok(done) && done@ == clearing@.stage
            } else {
                cleared == Err::<Cleared, PlayerError>(PlayerError::NotResponding)
            },
    {
        self.stage_transition = None;
        if !answered {
            return Err(PlayerError::NotResponding);
        }
        let waiting = clearing.waiting();
        self.record_clear(waiting.command);
        Ok(Cleared { stage: clearing.stage })
    }

    /// Records a clear that was answered, unless the sink was replaced.
    fn record_clear(&mut self, command: Command)
        requires
            old(self)@.valid(),
            command.call is Clear,
        ensures
            final(self)@ == old(self)@.called_on(command),
            final(self)@.valid(),
    {
        proof {
            lemma_next_is_valid(self@, Happening::Stopped { command });
        }
        if command.sink == self.sink.serial() {
            self.sink.record(command.call);
        }
    }

    /// Appends the source of a stage, unless a later stage began since or the
    /// device was reopened under it: either way the sink that it cleared is no
    /// longer the one to play through. A paused sink stays paused.
    pub fn append_for_stage(&mut self, ready: Ready) -> (staged: Result<
        (Staged, Command),
        PlayerError,
    >)
        requires
            old(self)@.valid(),
            old(self)@.transition is None,
        ensures
            final(self)@.valid(),
            if ready@.sink != old(self)@.sink.serial {
                &&& final(self)@ == old(self)@
                &&& staged == Err::<(Staged, Command), PlayerError>(PlayerError::DeviceChanged)
            } else if !old(self)@.current(ready@.generation) {
                &&& final(self)@ == old(self)@
                &&& staged == Err::<(Staged, Command), PlayerError>(PlayerError::Superseded)
            } else {
                let call = Call::Append { stage: ready@.generation };
                &&& final(self)@ == old(self)@.called(call)
                &&& staged matches Ok((done, command))
                &&& done.plays() == ready@.then_play
                &&& command == (Command { sink: ready@.sink, call })
            },
    {
        if ready.sink != self.sink.serial() {
            return Err(PlayerError::DeviceChanged);
        }
        if self.stage_generation != ready.generation {
            return Err(PlayerError::Superseded);
        }
        let call = Call::Append { stage: ready.generation };
        self.sink.record(call);
        Ok((Staged { then_play: ready.then_play }, Command { sink: ready.sink, call }))
    }

    /// Lets a staged track play where that was asked for.
    pub fn stage_done(&mut self, staged: Staged) -> (play: Option<Command>)
        requires
            old(self)@.valid(),
        ensures
            final(self)@.valid(),
            if staged.plays() {
                &&& final(self)@ == old(self)@.called(Call::Play)
                &&& play == Some(Command { sink: old(self)@.sink.serial, call: Call::Play })
            } else {
                &&& final(self)@ == old(self)@
                &&& play is None
            },
    {
        if staged.then_play {
            Some(self.resume())
        } else {
            None
        }
    }

    // ------------------------------------------------------------------
    // Transport
    // ------------------------------------------------------------------

    /// Pauses playback, keeping the current position.
    pub fn pause(&mut self) -> (command: Command)
        requires
            old(self)@.valid(),
        ensures
            final(self)@ == old(self)@.called(Call::Pause),
            final(self)@.valid(),
            command == (Command { sink: old(self)@.sink.serial, call: Call::Pause }),
    {
        self.sink.record(Call::Pause);
        Command { sink: self.sink.serial(), call: Call::Pause }
    }

    /// Resumes playback from the current position.
    pub fn resume(&mut self) -> (command: Command)
        requires
            old(self)@.valid(),
        ensures
            final(self)@ == old(self)@.called(Call::Play),
            final(self)@.valid(),
            command == (Command { sink: old(self)@.sink.serial, call: Call::Play }),
    {
        self.sink.record(Call::Play);
        Command { sink: self.sink.serial(), call: Call::Play }
    }

    /// Whether playback is paused.
    pub fn is_paused(&self) -> (paused: bool)
        ensures
            paused == self@.sink.paused,
    {
        self.sink.is_paused()
    }

    /// Whether the sink has no source playing: either nothing was ever played, or
    /// the current track played to completion.
    pub fn is_finished(&self) -> (finished: bool)
        ensures
            finished == self@.sink.finished,
    {
        self.sink.is_finished()
    }

    /// Begins to stop playback and discard the current source. Nothing is to be done
    /// where this is refused: the sink that would be drained is already dead.
    pub fn stop(&self, now: u128) -> (waiting: Admission<Waiting>)
        ensures
            self@.answers(
                Waiting {
                    command: Command {
                        sink: self@.sink.serial,
                        call: Call::Clear { through: self@.sink.newest() },
                    },
                    wait: Wait { sink: self@.sink.serial, started: now },
                },
                now,
                waiting,
            ),
    {
        self.bounded(Call::Clear { through: self.sink.newest() }, now)
    }

    /// Ends a stop, which the audio thread answered or did not. What was queued when
    /// the stop began is gone then; a track that was staged since stays.
    pub fn stop_ended(&mut self, waiting: Waiting, answered: bool)
        requires
            old(self)@.valid(),
            waiting.command.call is Clear,
        ensures
            final(self)@ == if answered {
                old(self)@.called_on(waiting.command)
            } else {
                old(self)@
            },
            final(self)@.valid(),
    {
        if answered {
            self.record_clear(waiting.command);
        }
    }

    /// Sets the output volume from the user's percent on a perceptual curve.
    pub fn set_volume(&mut self, percent: u8) -> (command: Command)
        requires
            old(self)@.valid(),
        ensures
            final(self)@ == old(self)@.volume_set(percent),
            final(self)@.valid(),
            command == (Command {
                sink: old(self)@.sink.serial,
                call: Call::SetVolume { gain: square_law(percent) as u16 },
            }),
    {
        let call = Call::SetVolume { gain: volume_gain(percent) };
        self.volume_percent = percent;
        self.sink.record(call);
        Command { sink: self.sink.serial(), call }
    }

    /// Begins to seek to an absolute position within the current source.
    pub fn seek(&self, to: u128, now: u128) -> (waiting: Admission<Waiting>)
        ensures
            self@.answers(
                Waiting {
                    command: Command { sink: self@.sink.serial, call: Call::Seek { to } },
                    wait: Wait { sink: self@.sink.serial, started: now },
                },
                now,
                waiting,
            ),
    {
        self.bounded(Call::Seek { to }, now)
    }

    /// Ends a seek with the answer of the audio thread, where there was one.
    pub fn seek_ended(answer: Option<Result<(), String>>) -> (sought: Result<(), PlayerError>)
        ensures
            match answer {
                Some(Ok(_)) => sought is Ok,
                Some(Err(cause)) => sought == Err::<(), PlayerError>(PlayerError::Seek { cause }),
                None => sought == Err::<(), PlayerError>(PlayerError::NotResponding),
            },
    {
        match answer {
            Some(Ok(_)) => Ok(()),
            Some(Err(cause)) => Err(PlayerError::Seek { cause }),
            None => Err(PlayerError::NotResponding),
        }
    }
}

} // verus!
