//! One open output, and the calls that can be made on it.
use vstd::prelude::*;

use crate::volume::FULL_GAIN;

verus! {

/// A call on the control handle of a sink.
///
/// `Clear` and `Seek` wait on the audio thread, so they are only made under a
/// [`Wait`](crate::Wait); the others return at once.
#[derive(Clone, Copy, Debug, PartialEq, Eq, Structural)]
pub enum Call {
    /// Hold playback where it is.
    Pause,
    /// Let playback run.
    Play,
    /// Drop everything that is queued, and pause. The last stage that is queued as
    /// the call is asked for is `through`, and a source that is queued after it is
    /// taken to stay. A source that comes in between the asking and the call itself
    /// is dropped with the others; the next look at the handle shows that, and a look
    /// comes before each answer about the sink.
    Clear { through: u64 },
    /// Queue the source of the stage with this number.
    Append { stage: u64 },
    /// Scale the samples by this many parts of [`FULL_GAIN`].
    SetVolume { gain: u16 },
    /// Move to this position in the current source, in nanoseconds.
    Seek { to: u128 },
}

/// A call to be made, and the serial number of the sink to make it on.
#[derive(Clone, Copy, Debug, PartialEq, Eq, Structural)]
pub struct Command {
    pub sink: u64,
    pub call: Call,
}

/// What the audio backend reports of a running stream.
#[derive(Clone, Copy, Debug, PartialEq, Eq, Structural)]
pub enum StreamFault {
    /// The device disappeared. No audio callback runs after this.
    DeviceNotAvailable,
    /// The configuration of the stream no longer holds.
    StreamInvalidated,
    /// A buffer ran empty or over, which may be heard as a glitch.
    BufferUnderrun,
    /// Something that only the backend can name.
    BackendSpecific,
}

/// A sink as the player sees it.
#[verifier::ext_equal]
pub struct SinkView {
    /// Told apart from the other sinks of the player by this number: each sink gets
    /// the one after that of the sink before it.
    pub serial: u64,
    /// Whether the device was reported removed, or stopped answering.
    pub lost: bool,
    /// The name of the device the sink was opened on, where it could be read.
    pub device_name: Option<Seq<char>>,
    /// Whether playback is held.
    pub paused: bool,
    /// The stages whose sources were queued, the one playing first.
    pub queue: Seq<u64>,
    /// Whether nothing is left to play.
    pub finished: bool,
    /// The gain of the sink, in parts of [`FULL_GAIN`].
    pub gain: u16,
}

impl SinkView {
    /// A sink that was just connected: alive, running, empty, at full gain.
    pub open spec fn connected(serial: u64, device_name: Option<Seq<char>>) -> SinkView {
        SinkView {
            serial,
            lost: false,
            device_name,
            paused: false,
            queue: Seq::empty(),
            finished: true,
            gain: FULL_GAIN,
        }
    }

    /// The last stage that is queued. Stages are counted from one, so this is zero
    /// where none is.
    pub open spec fn newest(self) -> u64 {
        if self.queue.len() == 0 {
            0
        } else {
            self.queue.last()
        }
    }

    /// What holds of every sink: its stages are queued in their order, and none is
    /// queued where nothing is left to play.
    pub open spec fn valid(self) -> bool {
        &&& forall|i: int, j: int|
            0 <= i <= j < self.queue.len() ==> #[trigger] self.queue[i]
                <= #[trigger] self.queue[j]
        &&& self.finished ==> self.queue.len() == 0
    }

    /// The sink after a call on it has returned.
    pub open spec fn after(self, call: Call) -> SinkView {
        match call {
            Call::Pause => SinkView { paused: true, ..self },
            Call::Play => SinkView { paused: false, ..self },
            Call::Clear { through } => {
                let queue = queued_after(self.queue, through);
                SinkView { queue, finished: queue.len() == 0, paused: true, ..self }
            },
            Call::Append { stage } => SinkView {
                queue: self.queue.push(stage),
                finished: false,
                ..self
            },
            Call::SetVolume { gain } => SinkView { gain, ..self },
            Call::Seek { .. } => self,
        }
    }

    /// The sink once its device is known to be gone.
    pub open spec fn gone(self) -> SinkView {
        SinkView { lost: true, ..self }
    }

    /// The sink as a look at its handle shows it: held or running, and with or
    /// without something left to play.
    pub open spec fn seen(self, paused: bool, empty: bool) -> SinkView {
        SinkView {
            paused,
            queue: if empty {
                Seq::empty()
            } else {
                self.queue
            },
            finished: empty,
            ..self
        }
    }
}

/// The stages of a queue that come after the stage `through`.
pub open spec fn queued_after(queue: Seq<u64>, through: u64) -> Seq<u64> {
    queue.filter(|stage: u64| stage > through)
}

/// The stages that stay are the later ones of those that were queued, in their
/// order; none stays where there is no later one.
pub proof fn lemma_queued_after(queue: Seq<u64>, through: u64)
    requires
        forall|i: int, j: int|
            0 <= i <= j < queue.len() ==> #[trigger] queue[i] <= #[trigger] queue[j],
    ensures
        ({
            let rest = queued_after(queue, through);
            &&& rest.len() <= queue.len()
            &&& forall|i: int| 0 <= i < rest.len() ==> queue.contains(#[trigger] rest[i])
            &&& forall|i: int, j: int|
                0 <= i <= j < rest.len() ==> #[trigger] rest[i] <= #[trigger] rest[j]
            &&& forall|i: int|
                0 <= i < queue.len() && queue[i] > through ==> rest.contains(#[trigger] queue[i])
            &&& (forall|i: int| 0 <= i < queue.len() ==> #[trigger] queue[i] <= through)
                ==> rest.len() == 0
        }),
    decreases queue.len(),
{
    reveal(Seq::filter);
    if queue.len() > 0 {
        let earlier = queue.drop_last();
        lemma_queued_after(earlier, through);
        let kept = queued_after(earlier, through);
        let rest = queued_after(queue, through);
        assert(queue[queue.len() - 1] == queue.last());
        assert forall|i: int| 0 <= i < kept.len() implies queue.contains(#[trigger] kept[i])
            && kept[i] <= queue.last() by {
            let at = choose|k: int| 0 <= k < earlier.len() && earlier[k] == kept[i];
            assert(queue[at] == kept[i]);
        }
        assert(rest == if queue.last() > through {
            kept.push(queue.last())
        } else {
            kept
        });
        assert forall|i: int| 0 <= i < queue.len() && queue[i] > through implies rest.contains(
            #[trigger] queue[i],
        ) by {
            if i < earlier.len() {
                assert(earlier[i] == queue[i]);
                let at = choose|k: int| 0 <= k < kept.len() && kept[k] == earlier[i];
                assert(rest[at] == queue[i]);
            } else {
                assert(rest[rest.len() - 1] == queue[i]);
            }
        }
        if forall|i: int| 0 <= i < queue.len() ==> #[trigger] queue[i] <= through {
            assert forall|i: int| 0 <= i < earlier.len() implies #[trigger] earlier[i]
                <= through by {
                assert(queue[i] <= through);
            }
        }
    }
}

/// The view of an optional text.
pub open spec fn text_view(text: Option<String>) -> Option<Seq<char>> {
    match text {
        Some(t) => Some(t@),
        None => None,
    }
}

/// The player's record of one open output.
pub(crate) struct Sink {
    pub(crate) serial: u64,
    pub(crate) lost: bool,
    pub(crate) device_name: Option<String>,
    pub(crate) paused: bool,
    pub(crate) queue: Vec<u64>,
    pub(crate) finished: bool,
    pub(crate) gain: u16,
}

impl View for Sink {
    type V = SinkView;

    closed spec fn view(&self) -> SinkView {
        SinkView {
            serial: self.serial,
            lost: self.lost,
            device_name: text_view(self.device_name),
            paused: self.paused,
            queue: self.queue@,
            finished: self.finished,
            gain: self.gain,
        }
    }
}

impl Sink {
    pub(crate) fn connect(serial: u64, device_name: Option<String>) -> (sink: Sink)
        ensures
            sink@ == SinkView::connected(serial, text_view(device_name)),
    {
        Sink {
            serial,
            lost: false,
            device_name,
            paused: false,
            queue: Vec::new(),
            finished: true,
            gain: FULL_GAIN,
        }
    }

    pub(crate) fn serial(&self) -> (serial: u64)
        ensures
            serial == self@.serial,
    {
        self.serial
    }

    pub(crate) fn is_lost(&self) -> (lost: bool)
        ensures
            lost == self@.lost,
    {
        self.lost
    }

    pub(crate) fn device_name(&self) -> (name: Option<String>)
        ensures
            text_view(name) == self@.device_name,
    {
        match &self.device_name {
            Some(name) => Some(name.clone()),
            None => None,
        }
    }

    pub(crate) fn is_paused(&self) -> (paused: bool)
        ensures
            paused == self@.paused,
    {
        self.paused
    }

    pub(crate) fn is_finished(&self) -> (finished: bool)
        ensures
            finished == self@.finished,
    {
        self.finished
    }

    pub(crate) fn newest(&self) -> (stage: u64)
        ensures
            stage == self@.newest(),
    {
        let len: usize = self.queue.len();
        if len == 0 {
            0
        } else {
            self.queue[len - 1]
        }
    }

    /// Drops the stages up to `through` from the queue.
    fn drop_through(&mut self, through: u64)
        ensures
            final(self)@ == (SinkView {
                queue: queued_after(old(self)@.queue, through),
                ..old(self)@
            }),
    {
        let ghost later = |stage: u64| stage > through;
        let mut rest: Vec<u64> = Vec::new();
        let mut i: usize = 0;
        proof {
            reveal(Seq::filter);
            assert(self.queue@.take(0).filter(later) =~= Seq::<u64>::empty());
        }
        while i < self.queue.len()
            invariant
                i <= self.queue.len(),
                later == (|stage: u64| stage > through),
                rest@ == self.queue@.take(i as int).filter(later),
                self@ == old(self)@,
            decreases self.queue.len() - i,
        {
            proof {
                reveal(Seq::filter);
                assert(self.queue@.take(i + 1).drop_last() =~= self.queue@.take(i as int));
                assert(self.queue@.take(i + 1).last() == self.queue@[i as int]);
            }
            if self.queue[i] > through {
                rest.push(self.queue[i]);
            }
            i = i + 1;
        }
        proof {
            assert(self.queue@.take(i as int) =~= self.queue@);
        }
        self.queue = rest;
    }

    /// Records that `call` was made.
    pub(crate) fn record(&mut self, call: Call)
        ensures
            final(self)@ == old(self)@.after(call),
    {
        match call {
            Call::Pause => {
                self.paused = true;
            },
            Call::Play => {
                self.paused = false;
            },
            Call::Clear { through } => {
                self.drop_through(through);
                self.finished = self.queue.len() == 0;
                self.paused = true;
            },
            Call::Append { stage } => {
                self.queue.push(stage);
                self.finished = false;
            },
            Call::SetVolume { gain } => {
                self.gain = gain;
            },
            Call::Seek { .. } => {},
        }
    }

    /// Records that the device is gone.
    pub(crate) fn record_loss(&mut self)
        ensures
            final(self)@ == old(self)@.gone(),
    {
        self.lost = true;
    }

    /// Records a look at the handle.
    pub(crate) fn record_look(&mut self, paused: bool, empty: bool)
        ensures
            final(self)@ == old(self)@.seen(paused, empty),
    {
        self.paused = paused;
        self.finished = empty;
        if empty {
            self.queue = Vec::new();
        }
    }
}

} // verus!
