//! The detour engine: the record of which targets are hooked and of what
//! state each hook is in.
//!
//! Patching code is done by the embedding program. The engine decides
//! whether an operation is in order, takes the outcome of the patch, and
//! keeps the state that results. A hook moves through
//! `Uninstalled -> Installed -> Enabled <-> Disabled -> Uninstalled`.

use vstd::prelude::*;
use crate::resolver::{TargetFunction, TargetView};

verus! {

/// The state of a hook.
#[derive(Clone, Copy, Debug, PartialEq, Eq, Structural)]
pub enum HookStatus {
    /// No redirect exists. Both the first and the last state of a hook.
    Uninstalled,
    /// The redirect is prepared and calls are not yet redirected.
    Installed,
    /// Calls to the target reach the replacement.
    Enabled,
    /// The redirect exists and calls reach the target's own code again.
    Disabled,
}

impl HookStatus {
    /// Whether a hook in this state may be enabled.
    pub open spec fn may_enable(self) -> bool {
        self == HookStatus::Installed || self == HookStatus::Disabled
    }

    /// Whether calls to the target of a hook in this state reach the
    /// replacement.
    pub open spec fn redirects(self) -> bool {
        self == HookStatus::Enabled
    }

    /// The state after an attempt to enable, `redirected` saying whether
    /// the redirect could be switched on.
    pub open spec fn after_enable(self, redirected: bool) -> HookStatus {
        if self.may_enable() && redirected {
            HookStatus::Enabled
        } else {
            self
        }
    }

    /// The state after an attempt to disable, `restored` saying whether the
    /// redirect could be switched off.
    pub open spec fn after_disable(self, restored: bool) -> HookStatus {
        if self == HookStatus::Enabled && restored {
            HookStatus::Disabled
        } else {
            self
        }
    }

    /// The state after an attempt to uninstall.
    pub open spec fn after_uninstall(self) -> HookStatus {
        if self == HookStatus::Disabled {
            HookStatus::Uninstalled
        } else {
            self
        }
    }
}

/// Why an operation on a hook was refused.
#[derive(Clone, Copy, Debug, PartialEq, Eq, Structural)]
pub enum HookError {
    /// The target already carries a hook that was not uninstalled.
    AlreadyInstalled,
    /// The code of the target could not be patched.
    InstallFailed,
    /// The hook is in no state from which it can be enabled, or the
    /// redirect could not be switched on.
    EnableFailed,
}

/// Names a hook of one engine.
#[derive(Clone, Copy, Debug, PartialEq, Eq, Structural)]
pub struct HookId {
    pub index: usize,
}

/// Where a call to a target address lands.
#[derive(Clone, Copy, Debug, PartialEq, Eq, Structural)]
pub enum Dispatch {
    /// In the target's own code.
    Original,
    /// In the replacement at `address`, by way of the hook `hook`.
    Replacement { hook: HookId, address: usize },
}

/// The mathematical content of a hook. `T` is the type of the trampoline:
/// the callable through which the target's own code is still reached.
pub struct HookView<T> {
    pub target: TargetView,
    pub replacement_address: usize,
    pub trampoline: Option<T>,
    pub status: HookStatus,
}

/// One hook: a target, the replacement that calls to it are sent to, and
/// the trampoline, which is held for as long as the hook is not uninstalled.
pub struct Hook<T> {
    target: TargetFunction,
    replacement_address: usize,
    trampoline: Option<T>,
    status: HookStatus,
}

impl<T> View for Hook<T> {
    type V = HookView<T>;

    closed spec fn view(&self) -> HookView<T> {
        HookView {
            target: self.target@,
            replacement_address: self.replacement_address,
            trampoline: self.trampoline,
            status: self.status,
        }
    }
}

impl<T> Hook<T> {
    /// The function that the hook is on.
    pub fn target(&self) -> (target: &TargetFunction)
        ensures
            target@ == self@.target,
    {
        &self.target
    }

    /// The address that calls to the target are sent to while the hook is
    /// enabled.
    pub fn replacement_address(&self) -> (address: usize)
        ensures
            address == self@.replacement_address,
    {
        self.replacement_address
    }

    /// The state of the hook.
    pub fn status(&self) -> (status: HookStatus)
        ensures
            status == self@.status,
    {
        self.status
    }

    /// The trampoline, as far as the hook holds one.
    pub fn trampoline(&self) -> (trampoline: Option<&T>)
        ensures
            trampoline is Some <==> self@.trampoline is Some,
            trampoline matches Some(callable) ==> self@.trampoline == Some(*callable),
    {
        self.trampoline.as_ref()
    }
}

/// The status of the hook at `index`; an index that names no hook names
/// one that is uninstalled.
pub open spec fn status_at<T>(hooks: Seq<HookView<T>>, index: int) -> HookStatus {
    if 0 <= index < hooks.len() {
        hooks[index].status
    } else {
        HookStatus::Uninstalled
    }
}

/// Whether `index` names a hook on `address` that is not uninstalled.
pub open spec fn is_live_on<T>(hooks: Seq<HookView<T>>, index: int, address: usize) -> bool {
    &&& 0 <= index < hooks.len()
    &&& hooks[index].status != HookStatus::Uninstalled
    &&& hooks[index].target.address == address
}

/// Whether some hook on `address` is not uninstalled.
pub open spec fn live_on<T>(hooks: Seq<HookView<T>>, address: usize) -> bool {
    exists|index: int| is_live_on(hooks, index, address)
}

/// Whether `index` names an enabled hook on `address`.
pub open spec fn is_enabled_on<T>(hooks: Seq<HookView<T>>, index: int, address: usize) -> bool {
    &&& 0 <= index < hooks.len()
    &&& hooks[index].status == HookStatus::Enabled
    &&& hooks[index].target.address == address
}

/// Whether calls to `address` are redirected.
pub open spec fn enabled_on<T>(hooks: Seq<HookView<T>>, address: usize) -> bool {
    exists|index: int| is_enabled_on(hooks, index, address)
}

/// What every engine keeps: a hook that is not uninstalled holds its
/// trampoline, and no target carries two such hooks.
pub open spec fn registry_well_formed<T>(hooks: Seq<HookView<T>>) -> bool {
    &&& forall|i: int|
        0 <= i < hooks.len() && #[trigger] hooks[i].status != HookStatus::Uninstalled
            ==> hooks[i].trampoline is Some
    &&& forall|i: int, j: int|
        #![trigger hooks[i], hooks[j]]
        0 <= i < hooks.len() && 0 <= j < hooks.len() && hooks[i].status != HookStatus::Uninstalled
            && hooks[j].status != HookStatus::Uninstalled && hooks[i].target.address
            == hooks[j].target.address ==> i == j
}

/// The hooks with the one at `index` moved to `status`.
pub open spec fn with_status<T>(hooks: Seq<HookView<T>>, index: int, status: HookStatus) -> Seq<
    HookView<T>,
> {
    hooks.update(index, HookView { status, ..hooks[index] })
}

/// The hooks with the one at `index` uninstalled and its trampoline gone.
pub open spec fn with_retired<T>(hooks: Seq<HookView<T>>, index: int) -> Seq<HookView<T>> {
    hooks.update(
        index,
        HookView { status: HookStatus::Uninstalled, trampoline: None, ..hooks[index] },
    )
}

/// An attempt to switch the redirect of a hook on or off.
pub enum Toggle {
    Enable { hook: HookId, redirected: bool },
    Disable { hook: HookId, restored: bool },
}

/// The hooks after `toggle`. An attempt that is not in order, or whose
/// patch failed, changes nothing.
pub open spec fn toggled<T>(hooks: Seq<HookView<T>>, toggle: Toggle) -> Seq<HookView<T>> {
    match toggle {
        Toggle::Enable { hook, redirected } => if status_at(hooks, hook.index as int).may_enable()
            && redirected {
            with_status(hooks, hook.index as int, HookStatus::Enabled)
        } else {
            hooks
        },
        Toggle::Disable { hook, restored } => if status_at(hooks, hook.index as int)
            == HookStatus::Enabled && restored {
            with_status(hooks, hook.index as int, HookStatus::Disabled)
        } else {
            hooks
        },
    }
}

/// The hooks after `toggles`, made one after the other.
pub open spec fn toggled_all<T>(hooks: Seq<HookView<T>>, toggles: Seq<Toggle>) -> Seq<HookView<T>>
    decreases toggles.len(),
{
    if toggles.len() == 0 {
        hooks
    } else {
        toggled(toggled_all(hooks, toggles.drop_last()), toggles.last())
    }
}

/// The error with which the engine refuses to record a hook on `address`,
/// if it does; `patched` says whether the patch produced a trampoline.
pub open spec fn install_refusal<T>(hooks: Seq<HookView<T>>, address: usize, patched: bool)
    -> Option<HookError> {
    if live_on(hooks, address) {
        Some(HookError::AlreadyInstalled)
    } else if !patched {
        Some(HookError::InstallFailed)
    } else {
        None
    }
}

spec fn views<T>(hooks: Seq<Hook<T>>) -> Seq<HookView<T>> {
    Seq::new(hooks.len(), |i: int| hooks[i]@)
}

proof fn lemma_new_hook_keeps_registry<T>(hooks: Seq<HookView<T>>, hook: HookView<T>)
    requires
        registry_well_formed(hooks),
        !live_on(hooks, hook.target.address),
        hook.trampoline is Some,
    ensures
        registry_well_formed(hooks.push(hook)),
{
    let after = hooks.push(hook);
    assert forall|i: int, j: int|
        0 <= i < after.len() && 0 <= j < after.len() && after[i].status != HookStatus::Uninstalled
            && after[j].status != HookStatus::Uninstalled && after[i].target.address
            == after[j].target.address implies i == j by {
        if i < hooks.len() && j == hooks.len() {
            assert(is_live_on(hooks, i, hook.target.address));
        } else if j < hooks.len() && i == hooks.len() {
            assert(is_live_on(hooks, j, hook.target.address));
        }
    }
}

proof fn lemma_moved_hook_keeps_registry<T>(
    hooks: Seq<HookView<T>>,
    index: int,
    status: HookStatus,
)
    requires
        registry_well_formed(hooks),
        0 <= index < hooks.len(),
        hooks[index].status != HookStatus::Uninstalled,
    ensures
        registry_well_formed(with_status(hooks, index, status)),
        registry_well_formed(with_retired(hooks, index)),
{
    let moved = with_status(hooks, index, status);
    assert forall|i: int, j: int|
        0 <= i < moved.len() && 0 <= j < moved.len() && moved[i].status != HookStatus::Uninstalled
            && moved[j].status != HookStatus::Uninstalled && moved[i].target.address
            == moved[j].target.address implies i == j by {
        assert(hooks[i].target == moved[i].target && hooks[j].target == moved[j].target);
    }
    let retired = with_retired(hooks, index);
    assert forall|i: int, j: int|
        0 <= i < retired.len() && 0 <= j < retired.len() && retired[i].status
            != HookStatus::Uninstalled && retired[j].status != HookStatus::Uninstalled
            && retired[i].target.address == retired[j].target.address implies i == j by {
        assert(hooks[i].target == retired[i].target && hooks[j].target == retired[j].target);
    }
}

/// The detour engine. It owns every hook; others name a hook by its
/// [`HookId`].
pub struct DetourEngine<T> {
    hooks: Vec<Hook<T>>,
}

impl<T> View for DetourEngine<T> {
    type V = Seq<HookView<T>>;

    closed spec fn view(&self) -> Seq<HookView<T>> {
        views(self.hooks@)
    }
}

impl<T> DetourEngine<T> {
    #[verifier::type_invariant]
    spec fn well_formed(self) -> bool {
        registry_well_formed(self@)
    }

    /// An engine without hooks.
    pub fn new() -> (engine: DetourEngine<T>)
        ensures
            engine@ == Seq::<HookView<T>>::empty(),
            registry_well_formed(engine@),
    {
        let engine = DetourEngine { hooks: Vec::new() };
        assert(engine@ =~= Seq::<HookView<T>>::empty());
        engine
    }

    /// The number of hooks ever installed.
    pub fn len(&self) -> (n: usize)
        ensures
            n == self@.len(),
    {
        self.hooks.len()
    }

    /// The record of a hook, for every id that the engine has given out.
    pub fn hook(&self, hook: HookId) -> (record: Option<&Hook<T>>)
        ensures
            record is Some <==> hook.index < self@.len(),
            record matches Some(found) ==> found@ == self@[hook.index as int],
    {
        if hook.index < self.hooks.len() {
            Some(&self.hooks[hook.index])
        } else {
            None
        }
    }

    /// The status of a hook.
    pub fn status(&self, hook: HookId) -> (status: HookStatus)
        ensures
            status == status_at(self@, hook.index as int),
    {
        if hook.index < self.hooks.len() {
            self.hooks[hook.index].status
        } else {
            HookStatus::Uninstalled
        }
    }

    /// The hook on `target_address` that is not uninstalled, if there is
    /// one. A target for which this gives a hook must not be patched again.
    pub fn find(&self, target_address: usize) -> (found: Option<HookId>)
        ensures
            found is Some <==> live_on(self@, target_address),
            found matches Some(hook) ==> is_live_on(self@, hook.index as int, target_address),
    {
        let mut i: usize = 0;
        while i < self.hooks.len()
            invariant
                i <= self.hooks.len(),
                forall|j: int| 0 <= j < i ==> !is_live_on(self@, j, target_address),
            decreases self.hooks.len() - i,
        {
            let hook = &self.hooks[i];
            if hook.status != HookStatus::Uninstalled && hook.target.resolved_address()
                == target_address {
                assert(is_live_on(self@, i as int, target_address));
                return Some(HookId { index: i });
            }
            i += 1;
        }
        None
    }

    /// Records the hook that the embedding program has prepared on
    /// `target`: calls are to go to `replacement_address`, and `trampoline`
    /// is what the patch produced, `None` where the code could not be
    /// patched.
    ///
    /// A target that carries a hook which was not uninstalled is refused
    /// with `AlreadyInstalled`, whatever the patch produced; a failed patch
    /// gives `InstallFailed`. Either way the engine is left as it was.
    /// Otherwise the new hook is `Installed`, and its id is returned.
    pub fn install(
        &mut self,
        target: TargetFunction,
        replacement_address: usize,
        trampoline: Option<T>,
    ) -> (installed: Result<HookId, HookError>)
        ensures
            installed is Err <==> install_refusal(old(self)@, target@.address, trampoline is Some)
                is Some,
            installed matches Err(error) ==> {
                &&& Some(error) == install_refusal(
                    old(self)@,
                    target@.address,
                    trampoline is Some,
                )
                &&& final(self)@ == old(self)@
            },
            installed matches Ok(hook) ==> {
                &&& hook.index == old(self)@.len()
                &&& final(self)@ == old(self)@.push(
                    HookView {
                        target: target@,
                        replacement_address,
                        trampoline,
                        status: HookStatus::Installed,
                    },
                )
            },
            registry_well_formed(final(self)@),
    {
        let address = target.resolved_address();
        proof {
            use_type_invariant(&*self);
        }
        if self.find(address).is_some() {
            return Err(HookError::AlreadyInstalled);
        }
        if trampoline.is_none() {
            return Err(HookError::InstallFailed);
        }
        let index = self.hooks.len();
        let ghost before = self@;
        let hook = Hook { target, replacement_address, trampoline, status: HookStatus::Installed };
        let ghost added = hook@;
        let mut hooks: Vec<Hook<T>> = Vec::new();
        std::mem::swap(&mut hooks, &mut self.hooks);
        hooks.push(hook);
        proof {
            assert(views(hooks@) =~= before.push(added));
            lemma_new_hook_keeps_registry(before, added);
        }
        self.hooks = hooks;
        Ok(HookId { index })
    }

    /// Whether `hook` is in a state from which it may be enabled. The
    /// redirect is to be switched on only where this holds.
    pub fn can_enable(&self, hook: HookId) -> (allowed: bool)
        ensures
            allowed == status_at(self@, hook.index as int).may_enable(),
    {
        match self.status(hook) {
            HookStatus::Installed | HookStatus::Disabled => true,
            _ => false,
        }
    }

    /// Enables `hook`; `redirected` says whether the embedding program
    /// could switch the redirect on. The hook becomes `Enabled` where it
    /// was `Installed` or `Disabled` and the redirect is on. Otherwise the
    /// call fails with `EnableFailed` and changes nothing.
    pub fn enable(&mut self, hook: HookId, redirected: bool) -> (enabled: Result<(), HookError>)
        ensures
            enabled is Ok <==> status_at(old(self)@, hook.index as int).may_enable() && redirected,
            enabled is Err ==> enabled == Err::<(), HookError>(HookError::EnableFailed),
            final(self)@ == toggled(old(self)@, Toggle::Enable { hook, redirected }),
            status_at(final(self)@, hook.index as int) == status_at(
                old(self)@,
                hook.index as int,
            ).after_enable(redirected),
            registry_well_formed(final(self)@),
    {
        proof {
            use_type_invariant(&*self);
        }
        if !(self.can_enable(hook) && redirected) {
            return Err(HookError::EnableFailed);
        }
        self.move_to(hook.index, HookStatus::Enabled);
        Ok(())
    }

    /// Disables `hook`; `restored` says whether the embedding program could
    /// switch the redirect off. An `Enabled` hook whose redirect is off
    /// becomes `Disabled`, and from then on no new call is redirected; a
    /// call that is already past the redirect is not touched. In every
    /// other case nothing changes. The result says whether the hook was
    /// disabled by this call.
    pub fn disable(&mut self, hook: HookId, restored: bool) -> (disabled: bool)
        ensures
            disabled == (status_at(old(self)@, hook.index as int) == HookStatus::Enabled
                && restored),
            final(self)@ == toggled(old(self)@, Toggle::Disable { hook, restored }),
            status_at(final(self)@, hook.index as int) == status_at(
                old(self)@,
                hook.index as int,
            ).after_disable(restored),
            registry_well_formed(final(self)@),
    {
        proof {
            use_type_invariant(&*self);
        }
        if !(self.status(hook) == HookStatus::Enabled && restored) {
            return false;
        }
        self.move_to(hook.index, HookStatus::Disabled);
        true
    }

    /// Uninstalls a `Disabled` hook and hands its trampoline back, which
    /// from then on must not be called. A hook in any other state is left
    /// alone, and `None` is returned.
    pub fn uninstall(&mut self, hook: HookId) -> (trampoline: Option<T>)
        ensures
            trampoline is Some <==> status_at(old(self)@, hook.index as int)
                == HookStatus::Disabled,
            trampoline is Some ==> {
                &&& trampoline == old(self)@[hook.index as int].trampoline
                &&& final(self)@ == with_retired(old(self)@, hook.index as int)
            },
            trampoline is None ==> final(self)@ == old(self)@,
            status_at(final(self)@, hook.index as int) == status_at(
                old(self)@,
                hook.index as int,
            ).after_uninstall(),
            registry_well_formed(final(self)@),
    {
        proof {
            use_type_invariant(&*self);
        }
        if self.status(hook) != HookStatus::Disabled {
            return None;
        }
        let ghost before = self@;
        let ghost i = hook.index as int;
        assert(before[i].trampoline is Some);
        let mut hooks: Vec<Hook<T>> = Vec::new();
        std::mem::swap(&mut hooks, &mut self.hooks);
        hooks[hook.index].status = HookStatus::Uninstalled;
        let trampoline = hooks[hook.index].trampoline.take();
        proof {
            assert(views(hooks@) =~= with_retired(before, i));
            lemma_moved_hook_keeps_registry(before, i, HookStatus::Uninstalled);
        }
        self.hooks = hooks;
        trampoline
    }

    /// The way back into the target's own code: the trampoline of `hook`,
    /// for as long as the hook is not uninstalled. The replacement calls it
    /// once for each call that it received.
    pub fn call_original(&self, hook: HookId) -> (trampoline: Option<&T>)
        ensures
            trampoline is Some <==> status_at(self@, hook.index as int) != HookStatus::Uninstalled,
            trampoline matches Some(callable) ==> self@[hook.index as int].trampoline == Some(
                *callable,
            ),
    {
        proof {
            use_type_invariant(self);
        }
        if hook.index < self.hooks.len() {
            let entry = &self.hooks[hook.index];
            assert(entry@ == self@[hook.index as int]);
            if entry.status != HookStatus::Uninstalled {
                entry.trampoline.as_ref()
            } else {
                None
            }
        } else {
            None
        }
    }

    /// The target that `hook` is on, while the hook is not uninstalled.
    pub fn target(&self, hook: HookId) -> (target: Option<&TargetFunction>)
        ensures
            target is Some <==> status_at(self@, hook.index as int) != HookStatus::Uninstalled,
            target matches Some(function) ==> function@ == self@[hook.index as int].target,
    {
        if hook.index < self.hooks.len() {
            let entry = &self.hooks[hook.index];
            assert(entry@ == self@[hook.index as int]);
            if entry.status != HookStatus::Uninstalled {
                Some(&entry.target)
            } else {
                None
            }
        } else {
            None
        }
    }

    /// Where a call to `target_address` lands: in the replacement of the
    /// enabled hook on that address, or, where there is none, in the
    /// target's own code.
    pub fn dispatch(&self, target_address: usize) -> (landing: Dispatch)
        ensures
            landing is Replacement <==> enabled_on(self@, target_address),
            match landing {
                Dispatch::Original => !enabled_on(self@, target_address),
                Dispatch::Replacement { hook, address } => {
                    &&& is_enabled_on(self@, hook.index as int, target_address)
                    &&& address == self@[hook.index as int].replacement_address
                },
            },
    {
        match self.find(target_address) {
            Some(hook) => {
                proof {
                    use_type_invariant(self);
                }
                let entry = &self.hooks[hook.index];
                assert(entry@ == self@[hook.index as int]);
                if entry.status == HookStatus::Enabled {
                    assert(is_enabled_on(self@, hook.index as int, target_address));
                    Dispatch::Replacement { hook, address: entry.replacement_address }
                } else {
                    assert forall|j: int| !is_enabled_on(self@, j, target_address) by {
                        if is_enabled_on(self@, j, target_address) {
                            assert(is_live_on(self@, j, self@[j].target.address));
                            assert(is_live_on(
                                self@,
                                hook.index as int,
                                self@[j].target.address,
                            ));
                        }
                    }
                    Dispatch::Original
                }
            },
            None => {
                assert forall|j: int| !is_enabled_on(self@, j, target_address) by {
                    if is_enabled_on(self@, j, target_address) {
                        assert(is_live_on(self@, j, target_address));
                    }
                }
                Dispatch::Original
            },
        }
    }

    /// Moves a hook that is not uninstalled to another state that is not
    /// `Uninstalled`.
    fn move_to(&mut self, index: usize, status: HookStatus)
        requires
            index < old(self)@.len(),
            old(self)@[index as int].status != HookStatus::Uninstalled,
            status != HookStatus::Uninstalled,
        ensures
            final(self)@ == with_status(old(self)@, index as int, status),
            registry_well_formed(final(self)@),
    {
        proof {
            use_type_invariant(&*self);
        }
        let ghost before = self@;
        let mut hooks: Vec<Hook<T>> = Vec::new();
        std::mem::swap(&mut hooks, &mut self.hooks);
        hooks[index].status = status;
        proof {
            assert(views(hooks@) =~= with_status(before, index as int, status));
            lemma_moved_hook_keeps_registry(before, index as int, status);
        }
        self.hooks = hooks;
    }
}

/// A second install on the same target is refused. Once a hook on a target
/// is installed, then for as long as it is not uninstalled, however often
/// hooks are enabled and disabled in between, the engine refuses to record
/// another hook on that target with `AlreadyInstalled`, whether or not the
/// second patch produced a trampoline; and the hook that is there keeps
/// its target, its replacement and its trampoline.
pub proof fn lemma_second_install_refused<T>(
    hooks: Seq<HookView<T>>,
    installed: HookView<T>,
    toggles: Seq<Toggle>,
    patched: bool,
)
    requires
        installed.status == HookStatus::Installed,
    ensures
        ({
            let first = hooks.push(installed);
            let later = toggled_all(first, toggles);
            let index = hooks.len() as int;
            &&& is_live_on(later, index, installed.target.address)
            &&& install_refusal(later, installed.target.address, patched) == Some(
                HookError::AlreadyInstalled,
            )
            &&& later[index].target == installed.target
            &&& later[index].replacement_address == installed.replacement_address
            &&& later[index].trampoline == installed.trampoline
        }),
    decreases toggles.len(),
{
    let first = hooks.push(installed);
    let index = hooks.len() as int;
    if toggles.len() > 0 {
        lemma_second_install_refused(hooks, installed, toggles.drop_last(), patched);
        lemma_toggles_keep_shape(first, toggles.drop_last());
    }
    assert(is_live_on(toggled_all(first, toggles), index, installed.target.address));
}

/// Enabling and disabling change nothing but the status of hooks: the
/// number of hooks stays, and so do the target, the replacement and the
/// trampoline of each, and no hook becomes or ceases to be uninstalled.
pub proof fn lemma_toggles_keep_shape<T>(hooks: Seq<HookView<T>>, toggles: Seq<Toggle>)
    ensures
        toggled_all(hooks, toggles).len() == hooks.len(),
        forall|i: int|
            0 <= i < hooks.len() ==> {
                let before = #[trigger] hooks[i];
                let after = toggled_all(hooks, toggles)[i];
                &&& after.target == before.target
                &&& after.replacement_address == before.replacement_address
                &&& after.trampoline == before.trampoline
                &&& after.status == HookStatus::Uninstalled <==> before.status
                    == HookStatus::Uninstalled
            },
        registry_well_formed(hooks) ==> registry_well_formed(toggled_all(hooks, toggles)),
    decreases toggles.len(),
{
    if toggles.len() > 0 {
        lemma_toggles_keep_shape(hooks, toggles.drop_last());
        let middle = toggled_all(hooks, toggles.drop_last());
        let after = toggled(middle, toggles.last());
        assert forall|i: int| 0 <= i < hooks.len() implies {
            let before = #[trigger] hooks[i];
            &&& after[i].target == before.target
            &&& after[i].replacement_address == before.replacement_address
            &&& after[i].trampoline == before.trampoline
            &&& after[i].status == HookStatus::Uninstalled <==> before.status
                == HookStatus::Uninstalled
        } by {
            assert(middle[i].target == hooks[i].target);
        }
        if registry_well_formed(hooks) {
            match toggles.last() {
                Toggle::Enable { hook, redirected } => {
                    if status_at(middle, hook.index as int).may_enable() && redirected {
                        lemma_moved_hook_keeps_registry(
                            middle,
                            hook.index as int,
                            HookStatus::Enabled,
                        );
                    }
                },
                Toggle::Disable { hook, restored } => {
                    if status_at(middle, hook.index as int) == HookStatus::Enabled && restored {
                        lemma_moved_hook_keeps_registry(
                            middle,
                            hook.index as int,
                            HookStatus::Disabled,
                        );
                    }
                },
            }
        }
    }
}

/// Uninstalling frees the target: once the hook on a target is
/// uninstalled, no hook on that target is left, and a new one is accepted
/// if its patch succeeds.
pub proof fn lemma_uninstall_frees_target<T>(hooks: Seq<HookView<T>>, index: int)
    requires
        registry_well_formed(hooks),
        0 <= index < hooks.len(),
        hooks[index].status != HookStatus::Uninstalled,
    ensures
        !live_on(with_retired(hooks, index), hooks[index].target.address),
        install_refusal(with_retired(hooks, index), hooks[index].target.address, true) is None,
{
    let after = with_retired(hooks, index);
    let address = hooks[index].target.address;
    assert forall|j: int| !is_live_on(after, j, address) by {
        if is_live_on(after, j, address) {
            assert(hooks[j].target.address == hooks[index].target.address);
        }
    }
}

/// In a well-formed registry the hook on a target decides alone where
/// calls to the target land: they are redirected exactly while that hook is
/// `Enabled`.
pub proof fn lemma_hook_decides_dispatch<T>(hooks: Seq<HookView<T>>, index: int)
    requires
        registry_well_formed(hooks),
        0 <= index < hooks.len(),
        hooks[index].status != HookStatus::Uninstalled,
    ensures
        enabled_on(hooks, hooks[index].target.address) <==> hooks[index].status.redirects(),
{
    let address = hooks[index].target.address;
    if hooks[index].status.redirects() {
        assert(is_enabled_on(hooks, index, address));
    }
    if enabled_on(hooks, address) {
        let j = choose|j: int| is_enabled_on(hooks, j, address);
        assert(hooks[j].target.address == hooks[index].target.address);
    }
}

/// Disabling stops redirection and enabling resumes it. After an `Enabled`
/// hook is disabled, calls to its target are no longer redirected. When it
/// is enabled again they are redirected again, by the same hook, to the
/// same replacement, with the target as it was resolved at first.
pub proof fn lemma_disable_then_enable<T>(hooks: Seq<HookView<T>>, hook: HookId)
    requires
        registry_well_formed(hooks),
        status_at(hooks, hook.index as int) == HookStatus::Enabled,
    ensures
        ({
            let address = hooks[hook.index as int].target.address;
            let disabled = toggled(hooks, Toggle::Disable { hook, restored: true });
            let resumed = toggled(disabled, Toggle::Enable { hook, redirected: true });
            &&& !enabled_on(disabled, address)
            &&& is_enabled_on(resumed, hook.index as int, address)
            &&& resumed == hooks
        }),
{
    let index = hook.index as int;
    let disabled = toggled(hooks, Toggle::Disable { hook, restored: true });
    let resumed = toggled(disabled, Toggle::Enable { hook, redirected: true });
    lemma_moved_hook_keeps_registry(hooks, index, HookStatus::Disabled);
    lemma_hook_decides_dispatch(disabled, index);
    assert(resumed =~= hooks);
}

/// A hook that was only installed redirects nothing: recording it changes
/// for no address whether calls are redirected.
pub proof fn lemma_installed_hook_redirects_nothing<T>(
    hooks: Seq<HookView<T>>,
    installed: HookView<T>,
    address: usize,
)
    requires
        installed.status != HookStatus::Enabled,
    ensures
        enabled_on(hooks.push(installed), address) == enabled_on(hooks, address),
{
    let after = hooks.push(installed);
    if enabled_on(hooks, address) {
        let i = choose|i: int| is_enabled_on(hooks, i, address);
        assert(is_enabled_on(after, i, address));
    }
    if enabled_on(after, address) {
        let i = choose|i: int| is_enabled_on(after, i, address);
        assert(is_enabled_on(hooks, i, address));
    }
}

} // verus!
