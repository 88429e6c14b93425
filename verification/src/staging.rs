//! What holds of many stages that share one player.
//!
//! Fetches can overlap and finish in the wrong order, so stages do too. The laws
//! here speak of a player together with every stage on its way: those that began and
//! are to be admitted to the sink, those that were admitted, the one whose sink is
//! being cleared, and those that cleared the sink and have their source yet to append.
//! Their steps may come in any order, mixed with anything else that happens to the
//! player.
use vstd::prelude::*;

use crate::history::{lemma_next_is_valid, lemma_queue_shrinks, Happening};
use crate::model::PlayerView;
use crate::sink::{lemma_queued_after, Call, Command};

verus! {

/// A stage: its number and the sink that it was admitted to.
pub struct StageKey {
    pub generation: u64,
    pub sink: u64,
}

/// A clear that is under way: the stage that it is for, and the last stage that was
/// queued when it began.
pub struct ClearKey {
    pub stage: StageKey,
    pub through: u64,
}

impl ClearKey {
    /// The command of the clear.
    pub open spec fn command(self) -> Command {
        Command { sink: self.stage.sink, call: Call::Clear { through: self.through } }
    }
}

/// A player and the stages on their way.
pub struct Studio {
    pub player: PlayerView,
    /// The numbers of those that began and were not admitted to the sink yet.
    pub pending: Set<u64>,
    /// Were admitted, and did not come to their clear yet.
    pub begun: Set<StageKey>,
    /// The clear that is under way.
    pub clearing: Option<ClearKey>,
    /// Cleared the sink, and did not come to their append yet.
    pub cleared: Set<StageKey>,
}

/// One step of a stage, or something else that happens to the player.
pub enum StudioStep {
    /// A stage begins.
    Begin,
    /// A stage asks to be admitted to the sink. Where the device is known to be gone
    /// it is refused, and on its way no longer; where a read is due it asks again.
    Admit { generation: u64, now: u128 },
    /// A stage comes to its clear, which begins or is refused.
    Clear { stage: StageKey },
    /// The clear under way ends.
    ClearEnd { answered: bool },
    /// A stage comes to its append, which is made or refused.
    Append { stage: StageKey },
    /// A stage is dropped: its source could not be made ready.
    Drop { stage: StageKey },
    /// Something else happens.
    Other { what: Happening },
}

impl Studio {
    /// A player with no stage on its way.
    pub open spec fn opened(device_name: Option<Seq<char>>) -> Studio {
        Studio {
            player: PlayerView::started(device_name),
            pending: Set::empty(),
            begun: Set::empty(),
            clearing: None,
            cleared: Set::empty(),
        }
    }

    /// Whether this step can be taken. Clears and appends are serialized: none
    /// starts while a clear is under way. Sinks can be told apart as long as their
    /// numbers are not used up.
    pub open spec fn can(self, step: StudioStep) -> bool {
        match step {
            StudioStep::Begin => self.player.can(Happening::StageBegun),
            StudioStep::Admit { generation, .. } => self.pending.contains(generation),
            StudioStep::Clear { stage } => {
                self.begun.contains(stage) && self.player.transition is None
            },
            StudioStep::ClearEnd { .. } => self.clearing is Some,
            StudioStep::Append { stage } => {
                self.cleared.contains(stage) && self.player.transition is None
            },
            StudioStep::Drop { stage } => self.cleared.contains(stage),
            StudioStep::Other { what } => {
                &&& !(what is StageBegun)
                &&& !(what is ClearBegun)
                &&& !(what is ClearEnded)
                &&& !(what is Appended)
                &&& self.player.can(what)
                &&& self.player.numbers_suffice(what)
            },
        }
    }

    /// The studio after this step.
    pub open spec fn next(self, step: StudioStep) -> Studio {
        match step {
            StudioStep::Begin => {
                let player = self.player.stage_begun();
                Studio { player, pending: self.pending.insert(player.generation), ..self }
            },
            StudioStep::Admit { generation, now } => {
                let stage = StageKey { generation, sink: self.player.sink.serial };
                if self.player.admits(now) {
                    Studio {
                        pending: self.pending.remove(generation),
                        begun: self.begun.insert(stage),
                        ..self
                    }
                } else if self.player.refuses(now) {
                    Studio { pending: self.pending.remove(generation), ..self }
                } else {
                    self
                }
            },
            StudioStep::Clear { stage } => if self.player.current(stage.generation) {
                Studio {
                    player: self.player.clear_begun(stage.generation),
                    begun: self.begun.remove(stage),
                    clearing: Some(ClearKey { stage, through: self.player.sink.newest() }),
                    ..self
                }
            } else {
                Studio { begun: self.begun.remove(stage), ..self }
            },
            StudioStep::ClearEnd { answered } => {
                let clear = self.clearing->0;
                Studio {
                    player: self.player.clear_ended(clear.command(), answered),
                    clearing: None,
                    cleared: if answered {
                        self.cleared.insert(clear.stage)
                    } else {
                        self.cleared
                    },
                    ..self
                }
            },
            StudioStep::Append { stage } => if self.player.accepts(stage.generation, stage.sink) {
                Studio {
                    player: self.player.called(Call::Append { stage: stage.generation }),
                    cleared: self.cleared.remove(stage),
                    ..self
                }
            } else {
                Studio { cleared: self.cleared.remove(stage), ..self }
            },
            StudioStep::Drop { stage } => Studio { cleared: self.cleared.remove(stage), ..self },
            StudioStep::Other { what } => Studio { player: self.player.next(what), ..self },
        }
    }

    /// The studio after all these steps, one after the other.
    pub open spec fn after_all(self, steps: Seq<StudioStep>) -> Studio
        decreases steps.len(),
    {
        if steps.len() == 0 {
            self
        } else {
            self.after_all(steps.drop_last()).next(steps.last())
        }
    }

    /// Whether all these steps can be taken, one after the other.
    pub open spec fn can_all(self, steps: Seq<StudioStep>) -> bool
        decreases steps.len(),
    {
        steps.len() == 0 || {
            &&& self.can_all(steps.drop_last())
            &&& self.after_all(steps.drop_last()).can(steps.last())
        }
    }

    /// What holds of a stage on its way: it began, on a sink that the player has or
    /// had, and its source is not on the sink yet.
    pub open spec fn under_way(self, stage: StageKey) -> bool {
        &&& stage.generation <= self.player.generation
        &&& stage.sink <= self.player.sink.serial
        &&& !self.player.sink.queue.contains(stage.generation)
    }

    /// What holds at any time.
    pub open spec fn sound(self) -> bool {
        &&& self.player.valid()
        &&& self.player.transition == match self.clearing {
            Some(clear) => Some(clear.stage.generation),
            None => None,
        }
        // At most one source is on the sink.
        &&& self.player.sink.queue.len() <= 1
        &&& forall|s: StageKey| #[trigger] self.begun.contains(s) ==> self.under_way(s)
        &&& forall|s: StageKey| #[trigger] self.cleared.contains(s) ==> self.under_way(s)
        &&& self.clearing matches Some(c) ==> self.under_way(c.stage)
        &&& forall|g: u64| #[trigger]
            self.pending.contains(g) ==> g <= self.player.generation
                && !self.player.sink.queue.contains(g)
        // No two stages on their way share a number.
        &&& forall|s: StageKey| #[trigger]
            self.begun.contains(s) ==> !self.pending.contains(s.generation)
        &&& forall|s: StageKey| #[trigger]
            self.cleared.contains(s) ==> !self.pending.contains(s.generation)
        &&& self.clearing matches Some(c) ==> !self.pending.contains(c.stage.generation)
        &&& forall|s: StageKey, t: StageKey|
            #[trigger] self.begun.contains(s) && #[trigger] self.cleared.contains(t)
                ==> s.generation != t.generation
        &&& forall|s: StageKey|
            #[trigger] self.begun.contains(s) ==> (self.clearing matches Some(c) ==> s.generation
                != c.stage.generation)
        &&& forall|s: StageKey|
            #[trigger] self.cleared.contains(s) ==> (self.clearing matches Some(c) ==> s.generation
                != c.stage.generation)
        &&& forall|s: StageKey, t: StageKey|
            #[trigger] self.begun.contains(s) && #[trigger] self.begun.contains(t) && s.generation
                == t.generation ==> s == t
        &&& forall|s: StageKey, t: StageKey|
            #[trigger] self.cleared.contains(s) && #[trigger] self.cleared.contains(t)
                && s.generation == t.generation ==> s == t
        // A stage that may still append finds the sink as it left it: empty.
        &&& forall|s: StageKey|
            #[trigger] self.cleared.contains(s) && self.player.accepts(s.generation, s.sink)
                ==> self.player.sink.queue.len() == 0
        // While a stage clears, what is on the sink was there when the clear began,
        // and comes from an earlier stage.
        &&& self.clearing matches Some(c) ==> forall|i: int|
            0 <= i < self.player.sink.queue.len() ==> #[trigger] self.player.sink.queue[i]
                < c.stage.generation && self.player.sink.queue[i] <= c.through
    }
}

/// Whatever else happens to a player, it stays valid and begins no stage, and the
/// sink gets no new source by it.
proof fn lemma_other_adds_nothing(player: PlayerView, what: Happening)
    requires
        player.valid(),
        player.can(what),
        player.numbers_suffice(what),
        !(what is StageBegun),
        !(what is ClearBegun),
        !(what is ClearEnded),
        !(what is Appended),
    ensures
        player.next(what).valid(),
        player.next(what).generation == player.generation,
        player.next(what).transition == player.transition,
        player.next(what).sink.serial >= player.sink.serial,
        player.next(what).sink.queue.len() <= player.sink.queue.len(),
        forall|i: int|
            0 <= i < player.next(what).sink.queue.len() ==> player.sink.queue.contains(
                #[trigger] player.next(what).sink.queue[i],
            ),
        player.next(what).sink.serial == player.sink.serial || player.next(what).sink.queue.len()
            == 0,
{
    lemma_next_is_valid(player, what);
    lemma_queue_shrinks(player, what);
}

/// Every step that can be taken keeps the studio sound.
pub proof fn law_steps_keep_studios_sound(studio: Studio, step: StudioStep)
    requires
        studio.sound(),
        studio.can(step),
    ensures
        studio.next(step).sound(),
{
    match step {
        StudioStep::Begin => {
            lemma_next_is_valid(studio.player, Happening::StageBegun);
        },
        StudioStep::ClearEnd { answered } => {
            let command = studio.clearing->0.command();
            let what = Happening::ClearEnded { command, answered };
            lemma_next_is_valid(studio.player, what);
            lemma_queue_shrinks(studio.player, what);
            lemma_queued_after(studio.player.sink.queue, studio.clearing->0.through);
        },
        StudioStep::Append { stage } => {
            if studio.player.accepts(stage.generation, stage.sink) {
                let what = Happening::Appended { stage: stage.generation, sink: stage.sink };
                lemma_next_is_valid(studio.player, what);
            }
        },
        StudioStep::Other { what } => {
            lemma_other_adds_nothing(studio.player, what);
        },
        _ => {},
    }
}

/// However the steps of stages and everything else come, one after the other, the
/// studio stays sound.
pub proof fn law_studios_stay_sound(device_name: Option<Seq<char>>, steps: Seq<StudioStep>)
    requires
        Studio::opened(device_name).can_all(steps),
    ensures
        Studio::opened(device_name).after_all(steps).sound(),
    decreases steps.len(),
{
    if steps.len() > 0 {
        law_studios_stay_sound(device_name, steps.drop_last());
        law_steps_keep_studios_sound(
            Studio::opened(device_name).after_all(steps.drop_last()),
            steps.last(),
        );
    } else {
        crate::volume::law_curve_ends(100);
    }
}

/// An overtaken stage never touches the sink: it begins no clear and makes no
/// append once a later stage began.
pub proof fn law_overtaken_stage_leaves_the_sink_alone(studio: Studio, stage: StageKey)
    requires
        stage.generation < studio.player.generation,
    ensures
        studio.next(StudioStep::Clear { stage }).player == studio.player,
        studio.next(StudioStep::Append { stage }).player == studio.player,
{
}

/// A clear never removes a newer track: whatever is on the sink when the clear of
/// a stage ends was put there by an earlier stage. This holds even where a later
/// stage began while the clear was under way.
pub proof fn law_clear_removes_no_newer_track(
    device_name: Option<Seq<char>>,
    steps: Seq<StudioStep>,
    i: int,
)
    requires
        Studio::opened(device_name).can_all(steps),
        ({
            let studio = Studio::opened(device_name).after_all(steps);
            studio.clearing is Some && 0 <= i < studio.player.sink.queue.len()
        }),
    ensures
        ({
            let studio = Studio::opened(device_name).after_all(steps);
            studio.player.sink.queue[i] < studio.clearing->0.stage.generation
        }),
{
    law_studios_stay_sound(device_name, steps);
}

/// A stage never appends behind another track: where its append is made, the sink
/// is empty before it and holds just that track after it.
pub proof fn law_append_finds_the_sink_empty(
    device_name: Option<Seq<char>>,
    steps: Seq<StudioStep>,
    stage: StageKey,
)
    requires
        Studio::opened(device_name).can_all(steps),
        ({
            let studio = Studio::opened(device_name).after_all(steps);
            &&& studio.can(StudioStep::Append { stage })
            &&& studio.player.accepts(stage.generation, stage.sink)
        }),
    ensures
        ({
            let studio = Studio::opened(device_name).after_all(steps);
            let after = studio.next(StudioStep::Append { stage });
            &&& studio.player.sink.queue.len() == 0
            &&& after.player.sink.queue == seq![stage.generation]
        }),
{
    law_studios_stay_sound(device_name, steps);
    let queue = Studio::opened(device_name).after_all(steps).player.sink.queue;
    assert(queue.push(stage.generation) =~= seq![stage.generation]);
}

impl StudioStep {
    /// Whether this lets the sink run, or shows it running.
    pub open spec fn runs_the_sink(self) -> bool {
        self matches StudioStep::Other { what } && (what is Played || (
        what matches Happening::LookedAt { paused, .. } && !paused))
    }

    /// Whether this shows the sink with something left to play.
    pub open spec fn shows_a_track(self) -> bool {
        self matches StudioStep::Other { what } && (what matches Happening::LookedAt { empty, .. }
            && !empty)
    }
}

/// What a stage that cleared the sink finds there as long as it may still append.
spec fn as_cleared(studio: Studio, stage: StageKey, paused: bool, finished: bool) -> bool {
    studio.cleared.contains(stage) && studio.player.accepts(stage.generation, stage.sink) ==> {
        &&& paused ==> studio.player.sink.paused
        &&& finished ==> studio.player.sink.finished
    }
}

/// A stage that cleared the sink finds it paused as long as nothing lets it run, and
/// finished as long as nothing shows a track on it.
proof fn lemma_sink_stays_as_cleared(
    studio: Studio,
    stage: StageKey,
    between: Seq<StudioStep>,
    paused: bool,
    finished: bool,
)
    requires
        studio.sound(),
        stage.generation <= studio.player.generation,
        stage.sink <= studio.player.sink.serial,
        as_cleared(studio, stage, paused, finished),
        studio.can_all(between),
        paused ==> forall|i: int|
            0 <= i < between.len() ==> !(#[trigger] between[i]).runs_the_sink(),
        finished ==> forall|i: int|
            0 <= i < between.len() ==> !(#[trigger] between[i]).shows_a_track(),
    ensures
        studio.after_all(between).sound(),
        stage.generation <= studio.after_all(between).player.generation,
        stage.sink <= studio.after_all(between).player.sink.serial,
        as_cleared(studio.after_all(between), stage, paused, finished),
    decreases between.len(),
{
    if between.len() > 0 {
        let earlier = between.drop_last();
        assert forall|i: int| 0 <= i < earlier.len() implies earlier[i]
            == #[trigger] between[i] by {}
        assert(paused ==> forall|i: int|
            0 <= i < earlier.len() ==> !(#[trigger] earlier[i]).runs_the_sink());
        assert(finished ==> forall|i: int|
            0 <= i < earlier.len() ==> !(#[trigger] earlier[i]).shows_a_track());
        lemma_sink_stays_as_cleared(studio, stage, earlier, paused, finished);
        let before = studio.after_all(earlier);
        let step = between.last();
        assert(between[between.len() - 1] == step);
        law_steps_keep_studios_sound(before, step);
        match step {
            StudioStep::Other { what } => {
                lemma_other_adds_nothing(before.player, what);
            },
            _ => {},
        }
    }
}

/// The studio once the clear under way after `steps` was answered.
pub open spec fn once_cleared(device_name: Option<Seq<char>>, steps: Seq<StudioStep>) -> Studio {
    Studio::opened(device_name).after_all(steps).next(StudioStep::ClearEnd { answered: true })
}

/// The clear under way after `steps`.
pub open spec fn clear_after(device_name: Option<Seq<char>>, steps: Seq<StudioStep>) -> ClearKey {
    Studio::opened(device_name).after_all(steps).clearing->0
}

/// Whether the stage whose clear is under way after `steps` has its clear answered,
/// and may still append after the steps `between`.
pub open spec fn lasts(
    device_name: Option<Seq<char>>,
    steps: Seq<StudioStep>,
    between: Seq<StudioStep>,
) -> bool {
    let stage = clear_after(device_name, steps).stage;
    let later = once_cleared(device_name, steps).after_all(between);
    &&& Studio::opened(device_name).can_all(steps)
    &&& Studio::opened(device_name).after_all(steps).clearing is Some
    &&& once_cleared(device_name, steps).can_all(between)
    &&& later.can(StudioStep::Append { stage })
    &&& later.player.accepts(stage.generation, stage.sink)
}

proof fn lemma_lasting_stage(
    device_name: Option<Seq<char>>,
    steps: Seq<StudioStep>,
    between: Seq<StudioStep>,
    paused: bool,
    finished: bool,
)
    requires
        lasts(device_name, steps, between),
        paused ==> forall|i: int|
            0 <= i < between.len() ==> !(#[trigger] between[i]).runs_the_sink(),
        finished ==> forall|i: int|
            0 <= i < between.len() ==> !(#[trigger] between[i]).shows_a_track(),
    ensures
        ({
            let later = once_cleared(device_name, steps).after_all(between);
            &&& later.player.sink.queue.len() == 0
            &&& paused ==> later.player.sink.paused
            &&& finished ==> later.player.sink.finished
        }),
{
    let studio = Studio::opened(device_name).after_all(steps);
    let clear = clear_after(device_name, steps);
    law_studios_stay_sound(device_name, steps);
    law_steps_keep_studios_sound(studio, StudioStep::ClearEnd { answered: true });
    lemma_queued_after(studio.player.sink.queue, clear.through);
    lemma_sink_stays_as_cleared(
        once_cleared(device_name, steps),
        clear.stage,
        between,
        paused,
        finished,
    );
}

/// A staged track waits paused, so that no burst of its start is played: whatever
/// else comes between the clear of a stage and its append, as long as nothing lets
/// the sink run and no look shows it running, the sink is paused after the append
/// and holds just that track. Where the track is to play, it runs from there.
pub proof fn law_staged_track_waits_paused(
    device_name: Option<Seq<char>>,
    steps: Seq<StudioStep>,
    between: Seq<StudioStep>,
)
    requires
        lasts(device_name, steps, between),
        forall|i: int| 0 <= i < between.len() ==> !(#[trigger] between[i]).runs_the_sink(),
    ensures
        ({
            let stage = clear_after(device_name, steps).stage;
            let staged = once_cleared(device_name, steps).after_all(between).next(
                StudioStep::Append { stage },
            ).player;
            let played = staged.called(Call::Play);
            &&& staged.sink.paused && !staged.sink.finished
            &&& staged.sink.queue == seq![stage.generation]
            &&& !played.sink.paused && played.sink.queue == seq![stage.generation]
        }),
{
    lemma_lasting_stage(device_name, steps, between, true, false);
    let queue = once_cleared(device_name, steps).after_all(between).player.sink.queue;
    let stage = clear_after(device_name, steps).stage;
    assert(queue.push(stage.generation) =~= seq![stage.generation]);
}

/// A track whose source cannot be made ready leaves silence: the sink was cleared
/// before, so nothing is on it, and it reads as finished as long as no look shows
/// otherwise.
pub proof fn law_failed_track_leaves_silence(
    device_name: Option<Seq<char>>,
    steps: Seq<StudioStep>,
    between: Seq<StudioStep>,
)
    requires
        lasts(device_name, steps, between),
        forall|i: int| 0 <= i < between.len() ==> !(#[trigger] between[i]).shows_a_track(),
    ensures
        ({
            let stage = clear_after(device_name, steps).stage;
            let failed = once_cleared(device_name, steps).after_all(between).next(
                StudioStep::Drop { stage },
            ).player;
            failed.sink.queue.len() == 0 && failed.sink.finished
        }),
{
    lemma_lasting_stage(device_name, steps, between, false, true);
}

} // verus!
