//! The frame orchestrator: what the replacement does each time the host
//! calls the hooked function.
//!
//! On every interception the overlay is initialized if nobody has done so,
//! one overlay frame is drawn if the overlay is ready, and then, whatever
//! became of the overlay, the call is forwarded to the target's own code.
//! Drawing comes first because forwarding is what presents the frame.
//!
//! The orchestrator hands out one [`Action`] at a time. The embedding
//! program carries the action out and reports back, until the action is
//! [`Action::Forward`], which ends the interception.

use vstd::prelude::*;
use crate::hook::HookId;
use crate::overlay::{Frame, Lifecycle, OverlayState, OverlayView, Readiness, RenderError};

verus! {

/// What the embedding program has to do next for the interception at hand.
#[derive(Clone, Copy, Debug, PartialEq, Eq, Structural)]
pub enum Action {
    /// Build the rendering context and the renderer, then report with
    /// [`Orchestrator::constructed`].
    Construct,
    /// Draw this overlay frame into the current graphics context, then
    /// report with [`Orchestrator::drawn`].
    Draw(Frame),
    /// Call the target's own code through the trampoline of `hook`, with the
    /// arguments of the intercepted call, and return what it returns.
    Forward { hook: HookId },
}

/// The time from `previous` to `now`, in nanoseconds: nothing where there
/// was no earlier interception or the clock did not move forward.
pub open spec fn time_between(previous: Option<u64>, now: u64) -> u64 {
    match previous {
        Some(earlier) if earlier <= now => (now - earlier) as u64,
        _ => 0,
    }
}

/// The mathematical content of an [`Orchestrator`].
pub struct OrchestratorView<H> {
    pub overlay: OverlayView<H>,
    /// The hook whose trampoline leads to the target's own code.
    pub hook: HookId,
    /// When the latest interception began.
    pub previous: Option<u64>,
    /// The time between the latest interception and the one before it.
    pub delta: u64,
}

impl<H> OrchestratorView<H> {
    /// The action that follows once the overlay has been asked for a frame:
    /// drawing where there is a frame, forwarding where there is none.
    pub open spec fn draw_or_forward(self) -> (OrchestratorView<H>, Action) {
        match self.overlay.frame(self.delta) {
            Some(frame) => (
                OrchestratorView { overlay: self.overlay.advanced(self.delta), ..self },
                Action::Draw(frame),
            ),
            None => (self, Action::Forward { hook: self.hook }),
        }
    }

    /// State and first action of an interception that begins at `now`.
    pub open spec fn intercepted(self, now: u64) -> (OrchestratorView<H>, Action) {
        let timed = OrchestratorView {
            previous: Some(now),
            delta: time_between(self.previous, now),
            ..self
        };
        if self.overlay.lifecycle == Lifecycle::Uninitialized {
            (OrchestratorView { overlay: self.overlay.claimed(), ..timed }, Action::Construct)
        } else {
            timed.draw_or_forward()
        }
    }

    /// State and next action once the build has been reported.
    pub open spec fn constructed(self, built: Result<H, RenderError>) -> (
        OrchestratorView<H>,
        Action,
    ) {
        (OrchestratorView { overlay: self.overlay.completed(built), ..self }).draw_or_forward()
    }

    /// State and next action once the frame has been drawn.
    pub open spec fn drawn(self) -> (OrchestratorView<H>, Action) {
        (self, Action::Forward { hook: self.hook })
    }

    /// State and next action once `action` has been carried out; `built` is
    /// the result of the build, should `action` ask for one. Forwarding ends
    /// the interception, so nothing follows it.
    pub open spec fn next(self, action: Action, built: Result<H, RenderError>) -> Option<
        (OrchestratorView<H>, Action),
    > {
        match action {
            Action::Construct => Some(self.constructed(built)),
            Action::Draw(_) => Some(self.drawn()),
            Action::Forward { .. } => None,
        }
    }
}

/// The replacement's state: the overlay, the hook to forward through, and
/// the time of the latest interception.
pub struct Orchestrator<H> {
    overlay: OverlayState<H>,
    hook: HookId,
    previous: Option<u64>,
    delta: u64,
}

impl<H> View for Orchestrator<H> {
    type V = OrchestratorView<H>;

    closed spec fn view(&self) -> OrchestratorView<H> {
        OrchestratorView {
            overlay: self.overlay@,
            hook: self.hook,
            previous: self.previous,
            delta: self.delta,
        }
    }
}

impl<H> Orchestrator<H> {
    /// An orchestrator that forwards through `hook` and whose overlay
    /// nobody has used yet.
    pub fn new(hook: HookId) -> (orchestrator: Orchestrator<H>)
        ensures
            orchestrator@ == (OrchestratorView::<H> {
                overlay: OverlayView {
                    lifecycle: Lifecycle::Uninitialized,
                    handles: None,
                    failure: None,
                    frames: 0,
                    elapsed: 0,
                },
                hook,
                previous: None,
                delta: 0,
            }),
    {
        Orchestrator { overlay: OverlayState::new(), hook, previous: None, delta: 0 }
    }

    /// The hook that calls are forwarded through.
    pub fn hook(&self) -> (hook: HookId)
        ensures
            hook == self@.hook,
    {
        self.hook
    }

    /// The overlay.
    pub fn overlay(&self) -> (overlay: &OverlayState<H>)
        ensures
            overlay@ == self@.overlay,
    {
        &self.overlay
    }

    /// The handles to draw with, while the overlay is `Ready`. Whatever the
    /// caller does to them, nothing else changes.
    pub fn handles_mut(&mut self) -> (handles: Option<&mut H>)
        ensures
            handles is Some <==> old(self)@.overlay.lifecycle == Lifecycle::Ready,
            handles matches Some(built) ==> {
                &&& old(self)@.overlay.handles == Some(*built)
                &&& final(self)@ == (OrchestratorView {
                    overlay: OverlayView { handles: Some(*final(built)), ..old(self)@.overlay },
                    ..old(self)@
                })
            },
            handles is None ==> final(self)@ == old(self)@,
    {
        self.overlay.handles_mut()
    }

    /// Begins an interception at the time `now`, in nanoseconds on a clock
    /// that does not run backwards, and says what to do first. The first
    /// interception ever is told to build the overlay. One that finds the
    /// overlay `Ready` is given a frame to draw. One that finds it being
    /// built, or `Failed`, is told to forward at once.
    pub fn intercepted(&mut self, now: u64) -> (action: Action)
        ensures
            (final(self)@, action) == old(self)@.intercepted(now),
    {
        self.delta = match self.previous {
            Some(earlier) => if earlier <= now {
                now - earlier
            } else {
                0
            },
            None => 0,
        };
        self.previous = Some(now);
        match self.overlay.ensure_initialized() {
            Readiness::Construct => Action::Construct,
            _ => self.draw_or_forward(),
        }
    }

    /// Takes the result of the build that [`Action::Construct`] asked for
    /// and says what to do next: draw the first frame where the overlay is
    /// now `Ready`, forward where it is not.
    pub fn constructed(&mut self, built: Result<H, RenderError>) -> (action: Action)
        ensures
            (final(self)@, action) == old(self)@.constructed(built),
    {
        self.overlay.complete_initialization(built);
        self.draw_or_forward()
    }

    /// Says what to do once the frame of [`Action::Draw`] has been drawn:
    /// forward.
    pub fn drawn(&self) -> (action: Action)
        ensures
            (self@, action) == self@.drawn(),
    {
        Action::Forward { hook: self.hook }
    }

    fn draw_or_forward(&mut self) -> (action: Action)
        ensures
            (final(self)@, action) == old(self)@.draw_or_forward(),
    {
        match self.overlay.produce_frame(self.delta) {
            Some(frame) => Action::Draw(frame),
            None => Action::Forward { hook: self.hook },
        }
    }
}

/// The kinds of action.
#[derive(Clone, Copy, Debug, PartialEq, Eq, Structural)]
pub enum ActionKind {
    Construct,
    Draw,
    Forward,
}

impl Action {
    pub open spec fn kind(self) -> ActionKind {
        match self {
            Action::Construct => ActionKind::Construct,
            Action::Draw(_) => ActionKind::Draw,
            Action::Forward { .. } => ActionKind::Forward,
        }
    }
}

/// How many of `actions` are of kind `kind`.
pub open spec fn count(actions: Seq<Action>, kind: ActionKind) -> nat
    decreases actions.len(),
{
    if actions.len() == 0 {
        0
    } else if actions.last().kind() == kind {
        count(actions.drop_last(), kind) + 1
    } else {
        count(actions.drop_last(), kind)
    }
}

/// One interception as the host causes it: when it begins, and how the
/// build of the overlay ends should this interception be told to build.
pub struct Interception<H> {
    pub now: u64,
    pub built: Result<H, RenderError>,
}

/// One whole interception: the state it leaves and the actions it takes, in
/// order, when every action is carried out and reported as asked.
pub open spec fn interception<H>(start: OrchestratorView<H>, call: Interception<H>) -> (
    OrchestratorView<H>,
    Seq<Action>,
) {
    let (first_state, first) = start.intercepted(call.now);
    match first_state.next(first, call.built) {
        None => (first_state, seq![first]),
        Some((second_state, second)) => match second_state.next(second, call.built) {
            None => (second_state, seq![first, second]),
            Some((third_state, third)) => (third_state, seq![first, second, third]),
        },
    }
}

/// Interceptions one after the other: the state they leave and all their
/// actions, in order.
pub open spec fn interceptions<H>(start: OrchestratorView<H>, calls: Seq<Interception<H>>) -> (
    OrchestratorView<H>,
    Seq<Action>,
)
    decreases calls.len(),
{
    if calls.len() == 0 {
        (start, Seq::<Action>::empty())
    } else {
        let (middle, earlier) = interceptions(start, calls.drop_last());
        let (end, latest) = interception(middle, calls.last());
        (end, earlier + latest)
    }
}

/// Counting is additive over actions put one after the other.
pub proof fn lemma_count_concat(first: Seq<Action>, second: Seq<Action>, kind: ActionKind)
    ensures
        count(first + second, kind) == count(first, kind) + count(second, kind),
    decreases second.len(),
{
    if second.len() == 0 {
        assert(first + second == first);
    } else {
        assert((first + second).drop_last() == first + second.drop_last());
        assert((first + second).last() == second.last());
        lemma_count_concat(first, second.drop_last(), kind);
    }
}

/// Every interception forwards exactly once, and last. It is told to build
/// exactly if it found the overlay `Uninitialized`; it draws exactly if it
/// leaves the overlay `Ready`, once, and before it forwards. The overlay
/// comes to rest unless another interception is building, and the hook to
/// forward through never changes.
pub proof fn lemma_interception_forwards_once<H>(
    start: OrchestratorView<H>,
    call: Interception<H>,
)
    ensures
        ({
            let (end, actions) = interception(start, call);
            &&& 1 <= actions.len() <= 3
            &&& actions.last() == (Action::Forward { hook: start.hook })
            &&& count(actions, ActionKind::Forward) == 1
            &&& count(actions, ActionKind::Construct) == if start.overlay.lifecycle
                == Lifecycle::Uninitialized {
                1nat
            } else {
                0nat
            }
            &&& count(actions, ActionKind::Draw) == if end.overlay.lifecycle == Lifecycle::Ready {
                1nat
            } else {
                0nat
            }
            &&& end.hook == start.hook
            &&& end.previous == Some(call.now)
            &&& end.overlay.lifecycle == if start.overlay.lifecycle == Lifecycle::Uninitialized {
                if call.built is Ok {
                    Lifecycle::Ready
                } else {
                    Lifecycle::Failed
                }
            } else {
                start.overlay.lifecycle
            }
        }),
{
    reveal_with_fuel(count, 4);
    let (end, actions) = interception(start, call);
    assert(actions.drop_last().len() == actions.len() - 1);
    if actions.len() == 3 {
        assert(actions.drop_last().drop_last().len() == 1);
    }
}

/// No call is lost or duplicated, and the overlay is built at most once.
/// Over any number of interceptions, whatever times they begin at and
/// however the build ends: there are as many forwards as interceptions; at
/// most one interception is told to build, and none unless the overlay
/// started out `Uninitialized`; and the hook to forward through is the same
/// at the end.
pub proof fn lemma_interceptions_forward_each_call<H>(
    start: OrchestratorView<H>,
    calls: Seq<Interception<H>>,
)
    ensures
        ({
            let (end, actions) = interceptions(start, calls);
            &&& count(actions, ActionKind::Forward) == calls.len()
            &&& count(actions, ActionKind::Construct) <= 1
            &&& start.overlay.lifecycle != Lifecycle::Uninitialized ==> count(
                actions,
                ActionKind::Construct,
            ) == 0
            &&& calls.len() > 0 ==> end.overlay.lifecycle != Lifecycle::Uninitialized
            &&& start.overlay.lifecycle != Lifecycle::Uninitialized ==> end.overlay.lifecycle
                == start.overlay.lifecycle
            &&& count(actions, ActionKind::Construct) == 1 ==> end.overlay.lifecycle
                != Lifecycle::Uninitialized
            &&& end.hook == start.hook
        }),
    decreases calls.len(),
{
    if calls.len() > 0 {
        let (middle, earlier) = interceptions(start, calls.drop_last());
        let (end, latest) = interception(middle, calls.last());
        lemma_interceptions_forward_each_call(start, calls.drop_last());
        lemma_interception_forwards_once(middle, calls.last());
        lemma_count_concat(earlier, latest, ActionKind::Forward);
        lemma_count_concat(earlier, latest, ActionKind::Construct);
        if calls.len() == 1 {
            assert(calls.drop_last().len() == 0);
        }
    }
}

/// A failed overlay never blocks the host. Where every build fails and the
/// overlay did not start out `Ready`, no interception draws, and each one
/// still forwards: the host's call goes through as if there were no overlay.
pub proof fn lemma_failed_overlay_still_forwards<H>(
    start: OrchestratorView<H>,
    calls: Seq<Interception<H>>,
)
    requires
        start.overlay.lifecycle != Lifecycle::Ready,
        forall|i: int| 0 <= i < calls.len() ==> (#[trigger] calls[i]).built is Err,
    ensures
        ({
            let (end, actions) = interceptions(start, calls);
            &&& count(actions, ActionKind::Draw) == 0
            &&& count(actions, ActionKind::Forward) == calls.len()
            &&& end.overlay.lifecycle != Lifecycle::Ready
            &&& start.overlay.lifecycle == Lifecycle::Uninitialized && calls.len() > 0
                ==> end.overlay.lifecycle == Lifecycle::Failed
        }),
    decreases calls.len(),
{
    lemma_interceptions_forward_each_call(start, calls);
    if calls.len() > 0 {
        let (middle, earlier) = interceptions(start, calls.drop_last());
        let (end, latest) = interception(middle, calls.last());
        let shorter = calls.drop_last();
        assert forall|i: int| 0 <= i < shorter.len() implies (#[trigger] shorter[i]).built is Err by {
            assert(shorter[i] == calls[i]);
        }
        lemma_failed_overlay_still_forwards(start, shorter);
        lemma_interception_forwards_once(middle, calls.last());
        lemma_count_concat(earlier, latest, ActionKind::Draw);
        if calls.len() == 1 {
            assert(shorter.len() == 0);
        }
    }
}

/// Drawing comes before forwarding: in one interception, no action follows
/// the forward, so every frame is drawn before the call reaches the
/// target's own code.
pub proof fn lemma_draw_precedes_forward<H>(
    start: OrchestratorView<H>,
    call: Interception<H>,
    position: int,
)
    requires
        0 <= position < interception(start, call).1.len(),
        interception(start, call).1[position].kind() == ActionKind::Draw,
    ensures
        position < interception(start, call).1.len() - 1,
        interception(start, call).1.last().kind() == ActionKind::Forward,
        forall|earlier: int|
            0 <= earlier <= position ==> (#[trigger] interception(start, call).1[earlier]).kind()
                != ActionKind::Forward,
{
    lemma_interception_forwards_once(start, call);
}

} // verus!
