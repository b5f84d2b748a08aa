//! The overlay's render state: a rendering context and a renderer that are
//! built on first use, at most once, and kept for the life of the process.
//!
//! Building the context and drawing are done by the embedding program.
//! This module decides who builds, records how the build ended, counts
//! frames and keeps the overlay's clock.

use vstd::prelude::*;

verus! {

/// Where the overlay stands between "never used" and "usable or given up".
#[derive(Clone, Copy, Debug, PartialEq, Eq, Structural)]
pub enum Lifecycle {
    /// Nothing has been built and nobody is building.
    Uninitialized,
    /// One caller is building the context and the renderer.
    Initializing,
    /// Context and renderer exist.
    Ready,
    /// Building failed. It is not tried again.
    Failed,
}

impl Lifecycle {
    /// The lifecycle after a caller has asked for the overlay to be
    /// initialized: only the first to ask moves it, to `Initializing`.
    pub open spec fn claimed(self) -> Lifecycle {
        if self == Lifecycle::Uninitialized {
            Lifecycle::Initializing
        } else {
            self
        }
    }

    /// The lifecycle after a build has been reported, `built` saying
    /// whether it succeeded. Only a build that is under way can end.
    pub open spec fn completed(self, built: bool) -> Lifecycle {
        if self == Lifecycle::Initializing {
            if built {
                Lifecycle::Ready
            } else {
                Lifecycle::Failed
            }
        } else {
            self
        }
    }

    /// Whether the overlay has come to rest: `Ready` or `Failed`.
    pub open spec fn settled(self) -> bool {
        self == Lifecycle::Ready || self == Lifecycle::Failed
    }
}

/// Why the overlay cannot be drawn.
#[derive(Clone, Copy, Debug, PartialEq, Eq, Structural)]
pub enum RenderError {
    /// The rendering context or the renderer could not be built.
    ContextInitFailed,
}

/// The answer to a request to initialize the overlay.
#[derive(Clone, Copy, Debug, PartialEq, Eq, Structural)]
pub enum Readiness {
    /// The caller is the first to ask. It has to build the context and the
    /// renderer and to report the result.
    Construct,
    /// Another caller is building. There is nothing to draw with yet.
    Pending,
    /// The overlay can be drawn.
    Ready,
    /// The overlay was given up.
    Failed(RenderError),
}

/// One overlay frame to be drawn. Times are in nanoseconds.
#[derive(Clone, Copy, Debug, PartialEq, Eq, Structural)]
pub struct Frame {
    /// The number of frames produced before this one.
    pub index: u64,
    /// The time since the previous frame.
    pub delta: u64,
    /// The overlay's clock once `delta` has been added to it.
    pub elapsed: u64,
}

/// The sum of two times, held at the largest value where it would pass it.
pub open spec fn saturating_sum(a: u64, b: u64) -> u64 {
    if a + b > u64::MAX {
        u64::MAX
    } else {
        (a + b) as u64
    }
}

/// The mathematical content of an [`OverlayState`]. `H` is the type of what
/// was built: the rendering context together with its renderer.
pub struct OverlayView<H> {
    pub lifecycle: Lifecycle,
    pub handles: Option<H>,
    pub failure: Option<RenderError>,
    pub frames: u64,
    pub elapsed: u64,
}

impl<H> OverlayView<H> {
    /// The handles exist exactly while the overlay is `Ready`, and a cause
    /// is on record exactly while it is `Failed`.
    pub open spec fn consistent(self) -> bool {
        &&& self.handles is Some <==> self.lifecycle == Lifecycle::Ready
        &&& self.failure is Some <==> self.lifecycle == Lifecycle::Failed
    }

    /// The answer that a request to initialize gets in this state.
    pub open spec fn readiness(self) -> Readiness {
        match self.lifecycle {
            Lifecycle::Uninitialized => Readiness::Construct,
            Lifecycle::Initializing => Readiness::Pending,
            Lifecycle::Ready => Readiness::Ready,
            Lifecycle::Failed => Readiness::Failed(self.failure.unwrap()),
        }
    }

    /// The state after a request to initialize.
    pub open spec fn claimed(self) -> OverlayView<H> {
        OverlayView { lifecycle: self.lifecycle.claimed(), ..self }
    }

    /// The state after a build has been reported.
    pub open spec fn completed(self, built: Result<H, RenderError>) -> OverlayView<H> {
        if self.lifecycle == Lifecycle::Initializing {
            match built {
                Ok(handles) => OverlayView {
                    lifecycle: Lifecycle::Ready,
                    handles: Some(handles),
                    ..self
                },
                Err(cause) => OverlayView {
                    lifecycle: Lifecycle::Failed,
                    failure: Some(cause),
                    ..self
                },
            }
        } else {
            self
        }
    }

    /// The frame that is produced in this state after `delta` nanoseconds,
    /// if one is.
    pub open spec fn frame(self, delta: u64) -> Option<Frame> {
        if self.lifecycle == Lifecycle::Ready {
            Some(
                Frame {
                    index: self.frames,
                    delta,
                    elapsed: saturating_sum(self.elapsed, delta),
                },
            )
        } else {
            None
        }
    }

    /// The state after a frame has been asked for.
    pub open spec fn advanced(self, delta: u64) -> OverlayView<H> {
        if self.lifecycle == Lifecycle::Ready {
            OverlayView {
                frames: saturating_sum(self.frames, 1),
                elapsed: saturating_sum(self.elapsed, delta),
                ..self
            }
        } else {
            self
        }
    }
}

enum Stage<H> {
    Uninitialized,
    Initializing,
    Ready(H),
    Failed(RenderError),
}

/// The overlay's render state.
pub struct OverlayState<H> {
    stage: Stage<H>,
    frames: u64,
    elapsed: u64,
}

impl<H> View for OverlayState<H> {
    type V = OverlayView<H>;

    closed spec fn view(&self) -> OverlayView<H> {
        OverlayView {
            lifecycle: match self.stage {
                Stage::Uninitialized => Lifecycle::Uninitialized,
                Stage::Initializing => Lifecycle::Initializing,
                Stage::Ready(_) => Lifecycle::Ready,
                Stage::Failed(_) => Lifecycle::Failed,
            },
            handles: match self.stage {
                Stage::Ready(handles) => Some(handles),
                _ => None,
            },
            failure: match self.stage {
                Stage::Failed(cause) => Some(cause),
                _ => None,
            },
            frames: self.frames,
            elapsed: self.elapsed,
        }
    }
}

impl<H> OverlayState<H> {
    /// An overlay that nobody has used yet.
    pub fn new() -> (overlay: OverlayState<H>)
        ensures
            overlay@ == (OverlayView::<H> {
                lifecycle: Lifecycle::Uninitialized,
                handles: None,
                failure: None,
                frames: 0,
                elapsed: 0,
            }),
    {
        OverlayState { stage: Stage::Uninitialized, frames: 0, elapsed: 0 }
    }

    /// Every overlay state is consistent.
    pub proof fn lemma_consistent(&self)
        ensures
            self@.consistent(),
    {
    }

    pub fn lifecycle(&self) -> (lifecycle: Lifecycle)
        ensures
            lifecycle == self@.lifecycle,
    {
        match self.stage {
            Stage::Uninitialized => Lifecycle::Uninitialized,
            Stage::Initializing => Lifecycle::Initializing,
            Stage::Ready(_) => Lifecycle::Ready,
            Stage::Failed(_) => Lifecycle::Failed,
        }
    }

    /// Why the overlay was given up, if it was.
    pub fn failure(&self) -> (failure: Option<RenderError>)
        ensures
            failure == self@.failure,
    {
        match self.stage {
            Stage::Failed(cause) => Some(cause),
            _ => None,
        }
    }

    /// The number of frames produced so far.
    pub fn frames(&self) -> (frames: u64)
        ensures
            frames == self@.frames,
    {
        self.frames
    }

    /// The overlay's clock, in nanoseconds.
    pub fn elapsed(&self) -> (elapsed: u64)
        ensures
            elapsed == self@.elapsed,
    {
        self.elapsed
    }

    /// Asks for the overlay to be initialized. The first caller ever moves
    /// the overlay to `Initializing` and is told to build; it reports with
    /// [`OverlayState::complete_initialization`]. Every other call changes
    /// nothing and is told where the overlay stands.
    pub fn ensure_initialized(&mut self) -> (readiness: Readiness)
        ensures
            readiness == old(self)@.readiness(),
            final(self)@ == old(self)@.claimed(),
            readiness is Construct <==> old(self)@.lifecycle.builds_on(
                OverlayCall::EnsureInitialized,
            ),
    {
        match self.stage {
            Stage::Uninitialized => {
                self.stage = Stage::Initializing;
                Readiness::Construct
            },
            Stage::Initializing => Readiness::Pending,
            Stage::Ready(_) => Readiness::Ready,
            Stage::Failed(cause) => Readiness::Failed(cause),
        }
    }

    /// Reports how the build ended. While the overlay is `Initializing`,
    /// a success makes it `Ready` with the handles that were built, and a
    /// failure makes it `Failed` with the cause on record. In any other
    /// state the report is dropped and nothing changes. The lifecycle after
    /// the call is returned.
    pub fn complete_initialization(&mut self, built: Result<H, RenderError>) -> (lifecycle:
        Lifecycle)
        ensures
            final(self)@ == old(self)@.completed(built),
            lifecycle == final(self)@.lifecycle,
    {
        match self.stage {
            Stage::Initializing => match built {
                Ok(handles) => {
                    self.stage = Stage::Ready(handles);
                    Lifecycle::Ready
                },
                Err(cause) => {
                    self.stage = Stage::Failed(cause);
                    Lifecycle::Failed
                },
            },
            _ => self.lifecycle(),
        }
    }

    /// Produces the next frame, `delta` nanoseconds after the previous one.
    /// A `Ready` overlay advances its clock by `delta`, counts the frame and
    /// returns it; clock and count stop at the largest value they can hold.
    /// An overlay in any other state produces nothing and does not change.
    pub fn produce_frame(&mut self, delta: u64) -> (frame: Option<Frame>)
        ensures
            frame == old(self)@.frame(delta),
            final(self)@ == old(self)@.advanced(delta),
    {
        match self.stage {
            Stage::Ready(_) => {
                let index = self.frames;
                let elapsed = self.elapsed.saturating_add(delta);
                self.frames = self.frames.saturating_add(1);
                self.elapsed = elapsed;
                Some(Frame { index, delta, elapsed })
            },
            _ => None,
        }
    }

    /// The handles, while the overlay is `Ready`.
    pub fn handles(&self) -> (handles: Option<&H>)
        ensures
            handles is Some <==> self@.lifecycle == Lifecycle::Ready,
            handles matches Some(built) ==> self@.handles == Some(*built),
    {
        match &self.stage {
            Stage::Ready(handles) => Some(handles),
            _ => None,
        }
    }

    /// The handles, for drawing with them, while the overlay is `Ready`.
    /// Whatever the caller does to them, the overlay stays `Ready`.
    pub fn handles_mut(&mut self) -> (handles: Option<&mut H>)
        ensures
            handles is Some <==> old(self)@.lifecycle == Lifecycle::Ready,
            handles matches Some(built) ==> {
                &&& old(self)@.handles == Some(*built)
                &&& final(self)@ == (OverlayView { handles: Some(*final(built)), ..old(self)@ })
            },
            handles is None ==> final(self)@ == old(self)@,
    {
        match &mut self.stage {
            Stage::Ready(handles) => Some(handles),
            _ => None,
        }
    }
}

/// One call on an overlay state, as far as the lifecycle is concerned.
pub enum OverlayCall {
    /// A request to initialize.
    EnsureInitialized,
    /// The report of a build, `built` saying whether it succeeded.
    CompleteInitialization { built: bool },
    /// A request for a frame.
    ProduceFrame,
}

impl Lifecycle {
    /// The lifecycle after `call`.
    pub open spec fn after(self, call: OverlayCall) -> Lifecycle {
        match call {
            OverlayCall::EnsureInitialized => self.claimed(),
            OverlayCall::CompleteInitialization { built } => self.completed(built),
            OverlayCall::ProduceFrame => self,
        }
    }

    /// Whether `call`, made in this lifecycle, is told to build.
    pub open spec fn builds_on(self, call: OverlayCall) -> bool {
        call is EnsureInitialized && self == Lifecycle::Uninitialized
    }

    /// The lifecycle after `calls`, made one after the other.
    pub open spec fn after_all(self, calls: Seq<OverlayCall>) -> Lifecycle
        decreases calls.len(),
    {
        if calls.len() == 0 {
            self
        } else {
            self.after_all(calls.drop_last()).after(calls.last())
        }
    }

    /// How many of `calls`, made one after the other from this lifecycle,
    /// are told to build.
    pub open spec fn builds_in(self, calls: Seq<OverlayCall>) -> nat
        decreases calls.len(),
    {
        if calls.len() == 0 {
            0
        } else {
            let earlier = self.builds_in(calls.drop_last());
            if self.after_all(calls.drop_last()).builds_on(calls.last()) {
                earlier + 1
            } else {
                earlier
            }
        }
    }
}

/// The overlay is initialized at most once. In whatever order requests,
/// reports and frames arrive, and however many of them: at most one request
/// is told to build, and none is unless the overlay started out
/// `Uninitialized`; the lifecycle never comes back to `Uninitialized` once
/// it has left it; and an overlay that is `Ready` or `Failed` stays so.
pub proof fn lemma_initialized_at_most_once(start: Lifecycle, calls: Seq<OverlayCall>)
    ensures
        start.builds_in(calls) <= 1,
        start != Lifecycle::Uninitialized ==> start.builds_in(calls) == 0,
        start.builds_in(calls) == 1 ==> start.after_all(calls) != Lifecycle::Uninitialized,
        start != Lifecycle::Uninitialized ==> start.after_all(calls) != Lifecycle::Uninitialized,
        start.settled() ==> start.after_all(calls) == start,
    decreases calls.len(),
{
    if calls.len() > 0 {
        lemma_initialized_at_most_once(start, calls.drop_last());
    }
}

/// The first request to initialize, and only the first, is told to build:
/// after any calls that end with a request, the overlay has left
/// `Uninitialized`, and exactly one request was told to build if the overlay
/// started out `Uninitialized`.
pub proof fn lemma_first_request_builds(start: Lifecycle, calls: Seq<OverlayCall>)
    requires
        calls.len() > 0,
        calls.last() is EnsureInitialized,
    ensures
        start.after_all(calls) != Lifecycle::Uninitialized,
        start == Lifecycle::Uninitialized ==> start.builds_in(calls) == 1,
{
    lemma_initialized_at_most_once(start, calls.drop_last());
    lemma_initialized_at_most_once(start, calls);
    if start == Lifecycle::Uninitialized && start.builds_in(calls.drop_last()) == 0 {
        lemma_unbuilt_stays_uninitialized(start, calls.drop_last());
    }
}

/// While no request was told to build, an `Uninitialized` overlay is still
/// `Uninitialized`.
proof fn lemma_unbuilt_stays_uninitialized(start: Lifecycle, calls: Seq<OverlayCall>)
    requires
        start == Lifecycle::Uninitialized,
        start.builds_in(calls) == 0,
    ensures
        start.after_all(calls) == Lifecycle::Uninitialized,
    decreases calls.len(),
{
    if calls.len() > 0 {
        lemma_unbuilt_stays_uninitialized(start, calls.drop_last());
    }
}

} // verus!
