//! A model of the host at work: it calls the hooked function, and the hook
//! is switched on and off in between.
//!
//! The model counts how often the replacement and the target's own code
//! are entered. A call that finds the hook `Enabled` enters the
//! replacement, which runs one interception and enters the target's own
//! code once for each forward; any other call enters the target's own code
//! directly. The laws below say that no call is lost and none is doubled.

use vstd::prelude::*;
use crate::hook::HookStatus;
use crate::orchestrator::{ActionKind, Interception, OrchestratorView, count, interception};
use crate::orchestrator::lemma_interception_forwards_once;
use crate::overlay::Lifecycle;

verus! {

/// Something that happens to a hooked function.
pub enum HostEvent<H> {
    /// The host calls the function. Should the call be intercepted, the
    /// interception goes as given.
    Call(Interception<H>),
    /// The hook is enabled; `redirected` says whether the redirect could be
    /// switched on.
    Enable { redirected: bool },
    /// The hook is disabled; `restored` says whether the redirect could be
    /// switched off.
    Disable { restored: bool },
}

/// The hook on a function, the replacement behind it, and the tallies.
pub struct Host<H> {
    pub status: HookStatus,
    pub replacement: OrchestratorView<H>,
    /// How often the replacement was entered.
    pub replacement_calls: nat,
    /// How often the target's own code was entered.
    pub original_calls: nat,
    /// How many overlay frames were drawn.
    pub frames_drawn: nat,
}

impl<H> Host<H> {
    /// The host after `event`.
    pub open spec fn after(self, event: HostEvent<H>) -> Host<H> {
        match event {
            HostEvent::Call(call) => if self.status.redirects() {
                let (replacement, actions) = interception(self.replacement, call);
                Host {
                    replacement,
                    replacement_calls: self.replacement_calls + 1,
                    original_calls: self.original_calls + count(actions, ActionKind::Forward),
                    frames_drawn: self.frames_drawn + count(actions, ActionKind::Draw),
                    ..self
                }
            } else {
                Host { original_calls: self.original_calls + 1, ..self }
            },
            HostEvent::Enable { redirected } => Host {
                status: self.status.after_enable(redirected),
                ..self
            },
            HostEvent::Disable { restored } => Host {
                status: self.status.after_disable(restored),
                ..self
            },
        }
    }

    /// The host after `events`, one after the other.
    pub open spec fn after_all(self, events: Seq<HostEvent<H>>) -> Host<H>
        decreases events.len(),
    {
        if events.len() == 0 {
            self
        } else {
            self.after_all(events.drop_last()).after(events.last())
        }
    }
}

impl<H> HostEvent<H> {
    /// Whether this is a call during which a build of the overlay, should
    /// there be one, fails.
    pub open spec fn is_call_with_failing_build(self) -> bool {
        match self {
            HostEvent::Call(call) => call.built is Err,
            _ => false,
        }
    }
}

/// How many of `events` are calls.
pub open spec fn calls_in<H>(events: Seq<HostEvent<H>>) -> nat
    decreases events.len(),
{
    if events.len() == 0 {
        0
    } else if events.last() is Call {
        calls_in(events.drop_last()) + 1
    } else {
        calls_in(events.drop_last())
    }
}

/// The status of a hook that starts out in `status` after the enables and
/// disables among `events`.
pub open spec fn status_after<H>(status: HookStatus, events: Seq<HostEvent<H>>) -> HookStatus
    decreases events.len(),
{
    if events.len() == 0 {
        status
    } else {
        let before = status_after(status, events.drop_last());
        match events.last() {
            HostEvent::Call(_) => before,
            HostEvent::Enable { redirected } => before.after_enable(redirected),
            HostEvent::Disable { restored } => before.after_disable(restored),
        }
    }
}

/// How many of `events` are calls that find the hook `Enabled`, for a hook
/// that starts out in `status`.
pub open spec fn redirected_calls_in<H>(status: HookStatus, events: Seq<HostEvent<H>>) -> nat
    decreases events.len(),
{
    if events.len() == 0 {
        0
    } else {
        let earlier = redirected_calls_in(status, events.drop_last());
        if events.last() is Call && status_after(status, events.drop_last()).redirects() {
            earlier + 1
        } else {
            earlier
        }
    }
}

/// No call is lost and none is doubled. Whatever happens, every call of the
/// host enters the target's own code exactly once, redirected or not, and
/// the replacement is entered exactly once for each call made while the
/// hook is `Enabled`, and for no other.
pub proof fn lemma_every_call_reaches_target<H>(start: Host<H>, events: Seq<HostEvent<H>>)
    ensures
        start.after_all(events).original_calls == start.original_calls + calls_in(events),
        start.after_all(events).replacement_calls == start.replacement_calls
            + redirected_calls_in(start.status, events),
        start.after_all(events).status == status_after(start.status, events),
        start.after_all(events).replacement.hook == start.replacement.hook,
    decreases events.len(),
{
    if events.len() > 0 {
        lemma_every_call_reaches_target(start, events.drop_last());
        match events.last() {
            HostEvent::Call(call) => {
                lemma_interception_forwards_once(
                    start.after_all(events.drop_last()).replacement,
                    call,
                );
            },
            _ => {},
        }
    }
}

/// Calls alone do not move the hook, so each of them finds it as the first
/// did.
pub proof fn lemma_calls_keep_status<H>(status: HookStatus, events: Seq<HostEvent<H>>)
    requires
        forall|i: int| 0 <= i < events.len() ==> (#[trigger] events[i]) is Call,
    ensures
        status_after(status, events) == status,
        calls_in(events) == events.len(),
        redirected_calls_in(status, events) == if status.redirects() {
            events.len()
        } else {
            0
        },
    decreases events.len(),
{
    if events.len() > 0 {
        let earlier = events.drop_last();
        assert forall|i: int| 0 <= i < earlier.len() implies (#[trigger] earlier[i]) is Call by {
            assert(earlier[i] == events[i]);
        }
        lemma_calls_keep_status(status, earlier);
        assert(events.last() == events[events.len() - 1]);
    }
}

/// Redirection is complete. While the hook is `Enabled`, each of any
/// number of calls enters the replacement once, and through it the
/// target's own code once.
pub proof fn lemma_enabled_hook_redirects_every_call<H>(start: Host<H>, calls: Seq<HostEvent<H>>)
    requires
        start.status == HookStatus::Enabled,
        forall|i: int| 0 <= i < calls.len() ==> (#[trigger] calls[i]) is Call,
    ensures
        start.after_all(calls).replacement_calls == start.replacement_calls + calls.len(),
        start.after_all(calls).original_calls == start.original_calls + calls.len(),
        start.after_all(calls).status == HookStatus::Enabled,
{
    lemma_every_call_reaches_target(start, calls);
    lemma_calls_keep_status(start.status, calls);
}

/// A hook that is not `Enabled` redirects nothing. Each of any number of
/// calls enters the target's own code directly, and neither the
/// replacement nor the overlay sees any of them.
pub proof fn lemma_idle_hook_redirects_no_call<H>(start: Host<H>, calls: Seq<HostEvent<H>>)
    requires
        start.status != HookStatus::Enabled,
        forall|i: int| 0 <= i < calls.len() ==> (#[trigger] calls[i]) is Call,
    ensures
        start.after_all(calls).replacement_calls == start.replacement_calls,
        start.after_all(calls).original_calls == start.original_calls + calls.len(),
        start.after_all(calls).replacement == start.replacement,
        start.after_all(calls).frames_drawn == start.frames_drawn,
    decreases calls.len(),
{
    lemma_every_call_reaches_target(start, calls);
    lemma_calls_keep_status(start.status, calls);
    if calls.len() > 0 {
        let earlier = calls.drop_last();
        assert forall|i: int| 0 <= i < earlier.len() implies (#[trigger] earlier[i]) is Call by {
            assert(earlier[i] == calls[i]);
        }
        lemma_idle_hook_redirects_no_call(start, earlier);
        lemma_every_call_reaches_target(start, earlier);
        lemma_calls_keep_status(start.status, earlier);
    }
}

/// Disabling takes effect for every later call, and enabling again brings
/// redirection back: after a disable that succeeded, calls pass the
/// replacement by; after an enable that succeeded, they enter it again.
pub proof fn lemma_disable_and_resume<H>(
    start: Host<H>,
    bypassing: Seq<HostEvent<H>>,
    resumed: Seq<HostEvent<H>>,
)
    requires
        start.status == HookStatus::Enabled,
        forall|i: int| 0 <= i < bypassing.len() ==> (#[trigger] bypassing[i]) is Call,
        forall|i: int| 0 <= i < resumed.len() ==> (#[trigger] resumed[i]) is Call,
    ensures
        ({
            let disabled = start.after(HostEvent::Disable { restored: true });
            let idle = disabled.after_all(bypassing);
            let enabled = idle.after(HostEvent::Enable { redirected: true });
            let end = enabled.after_all(resumed);
            &&& disabled.status == HookStatus::Disabled
            &&& idle.replacement_calls == start.replacement_calls
            &&& idle.original_calls == start.original_calls + bypassing.len()
            &&& enabled.status == HookStatus::Enabled
            &&& end.replacement_calls == start.replacement_calls + resumed.len()
            &&& end.original_calls == start.original_calls + bypassing.len() + resumed.len()
        }),
{
    let disabled = start.after(HostEvent::Disable { restored: true });
    let idle = disabled.after_all(bypassing);
    let enabled = idle.after(HostEvent::Enable { redirected: true });
    lemma_idle_hook_redirects_no_call(disabled, bypassing);
    lemma_every_call_reaches_target(disabled, bypassing);
    lemma_calls_keep_status(disabled.status, bypassing);
    lemma_enabled_hook_redirects_every_call(enabled, resumed);
}

/// A failed overlay does not reach the host. While the hook is `Enabled`,
/// where every build of the overlay fails and the overlay did not start out
/// `Ready`, no frame is drawn, and still each call enters the target's own
/// code exactly once.
pub proof fn lemma_failed_overlay_is_invisible<H>(start: Host<H>, calls: Seq<HostEvent<H>>)
    requires
        start.status == HookStatus::Enabled,
        start.replacement.overlay.lifecycle != Lifecycle::Ready,
        forall|i: int| 0 <= i < calls.len() ==> (#[trigger] calls[i]).is_call_with_failing_build(),
    ensures
        start.after_all(calls).frames_drawn == start.frames_drawn,
        start.after_all(calls).original_calls == start.original_calls + calls.len(),
        start.after_all(calls).replacement_calls == start.replacement_calls + calls.len(),
        start.after_all(calls).replacement.overlay.lifecycle != Lifecycle::Ready,
        start.after_all(calls).status == HookStatus::Enabled,
    decreases calls.len(),
{
    if calls.len() > 0 {
        let earlier = calls.drop_last();
        assert forall|i: int| 0 <= i < earlier.len() implies (
        #[trigger] earlier[i]).is_call_with_failing_build() by {
            assert(earlier[i] == calls[i]);
        }
        lemma_failed_overlay_is_invisible(start, earlier);
        assert(calls.last() == calls[calls.len() - 1]);
        match calls.last() {
            HostEvent::Call(call) => {
                lemma_interception_forwards_once(start.after_all(earlier).replacement, call);
            },
            _ => {},
        }
    }
}

} // verus!
