use vstd::prelude::*;
use crate::text::{spawn_text, opt_view, value_text, OverlayText, LABEL, PLACEHOLDER};
use crate::timer::{carried, due, fires_at, lemma_throttled, tick_fits, RefreshTimer};

verus! {

/// The overlay's own record of its text element: the host's id of the
/// element while one exists, and `None` while the overlay is hidden.
pub struct ScreenDiagsTimer {
    pub text_entity: Option<u64>,
}

/// The one effect that a tick asks of the host's scene.
pub enum Step {
    /// Leave the scene as it is.
    Idle,
    /// Create a text element showing this text, then report its id with
    /// [`ScreenDiagsTimer::attach`].
    Spawn(OverlayText),
    /// Destroy this element and everything attached to it.
    Despawn(u64),
    /// Replace the value section of this element with this text.
    Refresh(u64, String),
}

/// A step with its strings seen as sequences of characters.
pub enum StepView {
    Idle,
    Spawn(Seq<char>, Seq<char>),
    Despawn(u64),
    Refresh(u64, Seq<char>),
}

impl View for Step {
    type V = StepView;

    open spec fn view(&self) -> StepView {
        match self {
            Step::Idle => StepView::Idle,
            Step::Spawn(t) => StepView::Spawn(t.label@, t.value@),
            Step::Despawn(e) => StepView::Despawn(*e),
            Step::Refresh(e, v) => StepView::Refresh(*e, v@),
        }
    }
}

/// The decision of one tick, first match wins: a hidden, paused overlay
/// stays hidden; a hidden, running one spawns an element with the current
/// value or the placeholder; a shown, paused one despawns its element; a
/// shown, running one refreshes its value when the timer has just completed
/// a period and a value is available, and otherwise leaves it.
pub open spec fn step_spec(
    entity: Option<u64>,
    paused: bool,
    fired: bool,
    fps: Option<Seq<char>>,
) -> StepView {
    match entity {
        None => if paused {
            StepView::Idle
        } else {
            StepView::Spawn(LABEL@, value_text(fps))
        },
        Some(e) => if paused {
            StepView::Despawn(e)
        } else if fired {
            match fps {
                Some(v) => StepView::Refresh(e, v),
                None => StepView::Idle,
            }
        } else {
            StepView::Idle
        },
    }
}

/// The element id that the overlay records after a tick, before a spawned
/// element is attached: a paused overlay forgets its element.
pub open spec fn entity_spec(entity: Option<u64>, paused: bool) -> Option<u64> {
    if paused {
        None
    } else {
        entity
    }
}

/// The timer after a tick: it runs only while an element is shown and the
/// overlay is not paused.
pub open spec fn timer_spec(timer: RefreshTimer, entity: Option<u64>, delta: nat) -> RefreshTimer {
    if entity is Some && !timer.paused {
        RefreshTimer {
            elapsed: carried(timer.elapsed as nat, delta, timer.interval as nat) as u64,
            ..timer
        }
    } else {
        timer
    }
}

/// The value that the host's element shows after it performed `step`, or
/// `None` when there is no element.
pub open spec fn shown_after(shown: Option<Seq<char>>, step: StepView) -> Option<Seq<char>> {
    match step {
        StepView::Idle => shown,
        StepView::Spawn(_, v) => Some(v),
        StepView::Despawn(_) => None,
        StepView::Refresh(_, v) => Some(v),
    }
}

/// The element id that the overlay holds at the end of a tick, once an
/// element spawned under id `spawned` has been attached.
pub open spec fn entity_after(
    entity: Option<u64>,
    paused: bool,
    fired: bool,
    fps: Option<Seq<char>>,
    spawned: u64,
) -> Option<u64> {
    if step_spec(entity, paused, fired, fps) is Spawn {
        Some(spawned)
    } else {
        entity_spec(entity, paused)
    }
}

impl ScreenDiagsTimer {
    /// The record of an overlay whose element `text_entity` was spawned at
    /// start-up.
    pub fn new(text_entity: u64) -> (r: Self)
        ensures
            r.text_entity == Some(text_entity),
    {
        ScreenDiagsTimer { text_entity: Some(text_entity) }
    }

    /// Records the element that the host spawned for a [`Step::Spawn`].
    pub fn attach(&mut self, entity: u64)
        requires
            old(self).text_entity is None,
        ensures
            final(self).text_entity == Some(entity),
    {
        self.text_entity = Some(entity);
    }

    /// The id of the element, while one exists.
    pub fn text_entity(&self) -> (r: Option<u64>)
        ensures
            r == self.text_entity,
    {
        self.text_entity
    }
}

/// One tick of the overlay: `delta` nanoseconds have passed, and `fps` is
/// the formatted current measurement, if one is available. Returns what the
/// host must do to its scene.
pub fn update(
    marker: &mut ScreenDiagsTimer,
    timer: &mut RefreshTimer,
    delta: u64,
    fps: Option<String>,
) -> (step: Step)
    requires
        old(timer).wf(),
        old(marker).text_entity is Some && !old(timer).paused ==> tick_fits(
            old(timer).elapsed as nat,
            delta as nat,
            old(timer).interval as nat,
        ),
    ensures
        step@ == step_spec(
            old(marker).text_entity,
            old(timer).paused,
            due(old(timer).elapsed as nat, delta as nat, old(timer).interval as nat),
            opt_view(fps),
        ),
        final(marker).text_entity == entity_spec(old(marker).text_entity, old(timer).paused),
        *final(timer) == timer_spec(*old(timer), old(marker).text_entity, delta as nat),
        final(timer).wf(),
{
    match marker.text_entity {
        None => {
            if timer.paused() {
                Step::Idle
            } else {
                Step::Spawn(spawn_text(fps))
            }
        },
        Some(e) => {
            if timer.paused() {
                marker.text_entity = None;
                Step::Despawn(e)
            } else if !timer.tick(delta) {
                Step::Idle
            } else {
                match fps {
                    Some(v) => Step::Refresh(e, v),
                    None => Step::Idle,
                }
            }
        },
    }
}

/// At the end of every tick, once a spawned element has been attached, the
/// overlay holds an element exactly when the tick saw it running: whatever
/// the sequence of pauses and unpauses, no tick leaves the two apart.
pub proof fn lemma_element_iff_running(
    entity: Option<u64>,
    paused: bool,
    fired: bool,
    fps: Option<Seq<char>>,
    spawned: u64,
)
    ensures
        entity_after(entity, paused, fired, fps, spawned) is None <==> paused,
{
}

/// A tick of a running overlay that already shows an element never spawns
/// another one and keeps the element it has.
pub proof fn lemma_running_never_respawns(
    e: u64,
    fired: bool,
    fps: Option<Seq<char>>,
    spawned: u64,
)
    ensures
        !(step_spec(Some(e), false, fired, fps) is Spawn),
        entity_spec(Some(e), false) == Some(e),
        entity_after(Some(e), false, fired, fps, spawned) == Some(e),
{
}

/// The shown value changes only on a tick whose timer completed a period:
/// every other tick of a running overlay that shows an element leaves the
/// scene as it is.
pub proof fn lemma_refresh_only_when_due(
    e: u64,
    fps: Option<Seq<char>>,
    shown: Option<Seq<char>>,
)
    ensures
        step_spec(Some(e), false, false, fps) == StepView::Idle,
        shown_after(shown, step_spec(Some(e), false, false, fps)) == shown,
{
}

/// A refresh comes only from a tick that completed a period, and none of
/// the `k` ticks after it completes another one while `k + 1` ticks fit in
/// a period: the shown value changes at most once in that many ticks, however
/// often the measurement changes.
pub proof fn lemma_refresh_throttled(
    e: u64,
    elapsed: nat,
    delta: nat,
    interval: nat,
    k: nat,
    fps: Option<Seq<char>>,
)
    requires
        elapsed < interval,
        (k + 1) * delta <= interval,
        step_spec(Some(e), false, due(elapsed, delta, interval), fps) is Refresh,
    ensures
        due(elapsed, delta, interval),
        forall|n: nat|
            1 <= n <= k ==> !#[trigger] fires_at(carried(elapsed, delta, interval), delta, interval, n),
{
    lemma_throttled(elapsed, delta, interval, k);
}

/// A gap in the measurements does not blank the value: after a refresh to
/// `v`, a later tick without a value, due or not, still shows `v`.
pub proof fn lemma_gap_keeps_value(
    e: u64,
    shown: Option<Seq<char>>,
    v: Seq<char>,
    fired: bool,
)
    ensures
        shown_after(shown, step_spec(Some(e), false, true, Some(v))) == Some(v),
        shown_after(
            shown_after(shown, step_spec(Some(e), false, true, Some(v))),
            step_spec(Some(e), false, fired, None),
        ) == Some(v),
{
}

/// Pausing and then unpausing destroys the element and spawns a new one,
/// whose value is the measurement of the unpausing tick, or the placeholder
/// when there is none: nothing of the old element's value comes back.
pub proof fn lemma_respawn_is_fresh(
    e: u64,
    shown: Option<Seq<char>>,
    fired1: bool,
    fps1: Option<Seq<char>>,
    fired2: bool,
    fps2: Option<Seq<char>>,
)
    ensures
        step_spec(Some(e), true, fired1, fps1) == StepView::Despawn(e),
        entity_spec(Some(e), true) is None,
        shown_after(shown, step_spec(Some(e), true, fired1, fps1)) is None,
        step_spec(entity_spec(Some(e), true), false, fired2, fps2) == StepView::Spawn(
            LABEL@,
            value_text(fps2),
        ),
        shown_after(
            shown_after(shown, step_spec(Some(e), true, fired1, fps1)),
            step_spec(entity_spec(Some(e), true), false, fired2, fps2),
        ) == Some(value_text(fps2)),
        fps2 is None ==> value_text(fps2) == PLACEHOLDER@,
{
}

} // verus!
