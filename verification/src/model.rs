//! The state of the player, and what each thing that happens to it makes of it.
use vstd::prelude::*;

use crate::device::{default_moved, Admission, DeviceCheckView};
use crate::error::PlayerError;
use crate::limits::{elapsed, AUDIO_THREAD_CEILING};
use crate::reopen::RecoveryView;
use crate::sink::{Call, Command, SinkView, StreamFault};
use crate::stage::{PendingView, StageStart};
use crate::volume::square_law;
use crate::wait::{PollFinding, Verdict, Wait};

verus! {

/// The state of a [`LocalPlayer`](crate::LocalPlayer).
#[verifier::ext_equal]
pub struct PlayerView {
    /// The output in use.
    pub sink: SinkView,
    /// The last percent that was set.
    pub volume_percent: u8,
    /// The last read of the default output.
    pub device_check: Option<DeviceCheckView>,
    /// The attempts to reopen the device.
    pub recovery: RecoveryView,
    /// The number of the last stage that began.
    pub generation: u64,
    /// The stage whose clear is under way. No other stage clears or appends
    /// meanwhile.
    pub transition: Option<u64>,
}

/// The number of the sink after the one with this number. The count starts over
/// where the numbers are used up.
pub open spec fn following(serial: u64) -> u64 {
    if serial == u64::MAX {
        0
    } else {
        (serial + 1) as u64
    }
}

impl PlayerView {
    /// What holds of every player.
    pub open spec fn valid(self) -> bool {
        &&& self.sink.gain == square_law(self.volume_percent)
        &&& self.sink.valid()
        &&& self.recovery.valid()
        &&& self.transition matches Some(stage) ==> stage <= self.generation
        &&& forall|i: int|
            0 <= i < self.sink.queue.len() ==> #[trigger] self.sink.queue[i] <= self.generation
    }

    /// A player on its first sink, which was paused after it was connected.
    pub open spec fn started(device_name: Option<Seq<char>>) -> PlayerView {
        PlayerView {
            sink: SinkView::connected(0, device_name).after(Call::Pause),
            volume_percent: 100,
            device_check: None,
            recovery: RecoveryView::fresh(),
            generation: 0,
            transition: None,
        }
    }

    /// The same player, its sink changed by `call`.
    pub open spec fn called(self, call: Call) -> PlayerView {
        PlayerView { sink: self.sink.after(call), ..self }
    }

    /// After a command was carried out, on a sink that may have been replaced by
    /// then.
    pub open spec fn called_on(self, command: Command) -> PlayerView {
        if command.sink == self.sink.serial {
            self.called(command.call)
        } else {
            self
        }
    }

    /// After the volume was set.
    pub open spec fn volume_set(self, percent: u8) -> PlayerView {
        PlayerView {
            volume_percent: percent,
            ..self.called(Call::SetVolume { gain: square_law(percent) as u16 })
        }
    }

    /// After a stage began.
    pub open spec fn stage_begun(self) -> PlayerView {
        PlayerView { generation: (self.generation + 1) as u64, ..self }
    }

    /// Whether a stage is still the last one that began.
    pub open spec fn current(self, stage: u64) -> bool {
        self.generation == stage
    }

    /// After the clear of a stage began.
    pub open spec fn clear_begun(self, stage: u64) -> PlayerView {
        PlayerView { transition: Some(stage), ..self }
    }

    /// After the clear of a stage was answered, or given up on.
    pub open spec fn clear_ended(self, command: Command, answered: bool) -> PlayerView {
        let after = if answered {
            self.called_on(command)
        } else {
            self
        };
        PlayerView { transition: None, ..after }
    }

    /// Whether a stage that cleared the sink with number `sink` may append to it.
    pub open spec fn accepts(self, stage: u64, sink: u64) -> bool {
        sink == self.sink.serial && self.current(stage)
    }

    /// After the sink was replaced by one on the device `device_name`: connected,
    /// paused, and set to the volume of the old one.
    pub open spec fn reopened(self, device_name: Option<Seq<char>>) -> PlayerView {
        PlayerView {
            sink: SinkView::connected(following(self.sink.serial), device_name).after(
                Call::Pause,
            ).after(Call::SetVolume { gain: square_law(self.volume_percent) as u16 }),
            device_check: None,
            ..self
        }
    }

    /// After the backend reported a fault of the sink with number `sink`.
    pub open spec fn faulted(self, sink: u64, fault: StreamFault) -> PlayerView {
        if fault == StreamFault::DeviceNotAvailable {
            self.charged(sink)
        } else {
            self
        }
    }

    /// After the sink with number `sink` was declared lost. One that was replaced
    /// takes that with it.
    pub open spec fn charged(self, sink: u64) -> PlayerView {
        if sink == self.sink.serial {
            PlayerView { sink: self.sink.gone(), ..self }
        } else {
            self
        }
    }

    /// After a look at the handle of the sink with number `sink`.
    pub open spec fn looked_at(self, sink: u64, paused: bool, empty: bool) -> PlayerView {
        if sink == self.sink.serial {
            PlayerView { sink: self.sink.seen(paused, empty), ..self }
        } else {
            self
        }
    }

    /// Whether the device is lost, as far as that is known without a read of the
    /// default output. A removed device is lost; a sink whose device has no
    /// readable name is taken to be alive; a recent read for the same name
    /// answers.
    pub open spec fn known_loss(self, now: u128) -> Option<bool> {
        if self.sink.lost {
            Some(true)
        } else {
            match self.sink.device_name {
                None => Some(false),
                Some(opened) => match self.device_check {
                    Some(check) if check.answers(opened, now) => Some(check.moved),
                    _ => None,
                },
            }
        }
    }

    /// Whether the calls that wait on the audio thread are refused: wherever the
    /// device is known to be lost, in whichever way.
    pub open spec fn refuses(self, now: u128) -> bool {
        self.known_loss(now) == Some(true)
    }

    /// Whether the calls that wait on the audio thread are made: only where no loss is
    /// known and no read is due that could show one.
    pub open spec fn admits(self, now: u128) -> bool {
        self.known_loss(now) == Some(false)
    }

    /// Whether the name of the default output has to be read before it can be told,
    /// for comparison with `opened`.
    pub open spec fn asks_for(self, opened: Seq<char>, now: u128) -> bool {
        self.known_loss(now) is None && self.sink.device_name == Some(opened)
    }

    /// The answer to a caller that asks for a call that waits on the audio thread,
    /// which is `call` where it is made.
    pub open spec fn answers<T>(self, call: T, now: u128, answer: Admission<T>) -> bool {
        match answer {
            Admission::Granted { value } => self.admits(now) && value == call,
            Admission::Refused { error } => self.refuses(now) && error
                == PlayerError::Disconnected,
            Admission::ReadDefault { opened } => self.asks_for(opened@, now),
        }
    }

    /// The answer to a stage that began.
    pub open spec fn answers_stage(
        self,
        begun: PendingView,
        now: u128,
        answer: StageStart,
    ) -> bool {
        match answer {
            StageStart::Begun { stage } => {
                self.admits(now) && stage@ == begun.admitted(self.sink.serial)
            },
            StageStart::Refused { error } => self.refuses(now) && error
                == PlayerError::Disconnected,
            StageStart::ReadDefault { opened, pending } => {
                self.asks_for(opened@, now) && pending@ == begun
            },
        }
    }

    /// After the name of the default output was read and compared with `opened`.
    pub open spec fn checked(
        self,
        opened: Seq<char>,
        current: Option<Seq<char>>,
        now: u128,
    ) -> PlayerView {
        PlayerView {
            device_check: Some(
                DeviceCheckView {
                    checked_at: now,
                    opened,
                    moved: default_moved(opened, current),
                },
            ),
            ..self
        }
    }

    /// Whether a wait has run into the ceiling.
    pub open spec fn overdue(wait: Wait, now: u128) -> bool {
        elapsed(wait.started, now) >= AUDIO_THREAD_CEILING
    }

    /// After a wait was found unanswered with nothing wrong with the device: past
    /// the ceiling, the sink it belongs to is declared lost.
    pub open spec fn waited(self, wait: Wait, now: u128) -> PlayerView {
        if PlayerView::overdue(wait, now) {
            self.charged(wait.sink)
        } else {
            self
        }
    }

    /// What a wait does where nothing is wrong with the device.
    pub open spec fn ceiling_verdict(wait: Wait, now: u128) -> Verdict {
        if PlayerView::overdue(wait, now) {
            Verdict::GaveUp
        } else {
            Verdict::KeepWaiting
        }
    }

    /// What a wait does at the end of a poll interval, with this finding.
    pub open spec fn poll_verdict(self, wait: Wait, finding: PollFinding, now: u128) -> Verdict {
        match finding {
            PollFinding::Known => if wait.sink != self.sink.serial {
                Verdict::GaveUp
            } else {
                match self.known_loss(now) {
                    Some(true) => Verdict::GaveUp,
                    Some(false) => PlayerView::ceiling_verdict(wait, now),
                    None => Verdict::ReadDefault,
                }
            },
            PollFinding::Read { opened, current } => if default_moved(opened, current) {
                Verdict::GaveUp
            } else {
                PlayerView::ceiling_verdict(wait, now)
            },
        }
    }

    /// The player after a wait came to the end of a poll interval.
    pub open spec fn polled(self, wait: Wait, finding: PollFinding, now: u128) -> PlayerView {
        match finding {
            PollFinding::Known => if wait.sink == self.sink.serial && self.known_loss(now) == Some(
                false,
            ) {
                self.waited(wait, now)
            } else {
                self
            },
            PollFinding::Read { opened, current } => {
                let checked = self.checked(opened, current, now);
                if default_moved(opened, current) {
                    checked
                } else {
                    checked.waited(wait, now)
                }
            },
        }
    }

    /// After an attempt to recover the device began.
    pub open spec fn attempt_begun(self, now: u128) -> PlayerView {
        PlayerView { recovery: self.recovery.begun(now), ..self }
    }

    /// After an attempt to recover the device succeeded.
    pub open spec fn recovered(self, device_name: Option<Seq<char>>) -> PlayerView {
        PlayerView { recovery: RecoveryView::fresh(), ..self.reopened(device_name) }
    }
}

} // verus!
