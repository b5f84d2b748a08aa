//! The injection entry point: what happens when the component is attached
//! to the host process.
//!
//! On attach, and only then, the diagnostic console is opened, the target
//! is resolved, and a hook on it is installed and enabled. The first step
//! that fails ends the injection with its error. The [`Injection`] says
//! which step is due; the embedding program carries it out and reports.

use vstd::prelude::*;
use crate::cname::CName;
use crate::hook::{DetourEngine, HookError, HookId, HookStatus, HookView};
use crate::hook::{enabled_on, install_refusal, is_enabled_on, live_on, status_at, toggled, Toggle};
use crate::hook::registry_well_formed;
use crate::hook::lemma_installed_hook_redirects_nothing;
use crate::resolver::{Lookup, Progress, ResolutionError, Resolver, TargetFunction, TargetView};

verus! {

/// The reason code with which the platform announces that the process is
/// going away.
pub const PROCESS_DETACH: u32 = 0;

/// The reason code with which the platform announces that the component
/// was attached to the process.
pub const PROCESS_ATTACH: u32 = 1;

/// The reason code for a thread that starts.
pub const THREAD_ATTACH: u32 = 2;

/// The reason code for a thread that ends.
pub const THREAD_DETACH: u32 = 3;

/// The module that exports the function the host calls to present a frame.
pub const TARGET_MODULE: &'static str = "opengl32.dll";

/// The function the host calls once for each frame it presents.
pub const TARGET_SYMBOL: &'static str = "wglSwapBuffers";

/// Why the injection failed.
#[derive(Clone, Copy, Debug, PartialEq, Eq, Structural)]
pub enum InjectionError {
    /// The diagnostic console could not be opened.
    Console,
    /// The target could not be resolved.
    Resolution(ResolutionError),
    /// The hook could not be installed or enabled.
    Hook(HookError),
}

/// Whether the entry point has to inject when it is called with `reason`:
/// on attach to the process, and on nothing else.
pub fn should_inject(reason: u32) -> (inject: bool)
    ensures
        inject == (reason == PROCESS_ATTACH),
{
    reason == PROCESS_ATTACH
}

/// What the entry point reports to the platform: success for every reason
/// but attach, and for attach whether the injection succeeded. `outcome` is
/// how the injection ended, if it was run to its end.
pub fn entry_point_result(reason: u32, outcome: Option<Result<HookId, InjectionError>>) -> (success:
    bool)
    ensures
        success == (reason != PROCESS_ATTACH || outcome matches Some(Ok(_))),
{
    if reason != PROCESS_ATTACH {
        true
    } else {
        match outcome {
            Some(Ok(_)) => true,
            _ => false,
        }
    }
}

/// What the embedding program has to do next for the injection.
#[derive(Clone, Copy, Debug, PartialEq, Eq)]
pub enum InjectionStep {
    /// Open the diagnostic console; report with
    /// [`Injection::console_opened`].
    OpenConsole,
    /// Put this question to the loader; report with
    /// [`Injection::looked_up`].
    Lookup(Lookup),
    /// Prepare the patch that sends calls of the function at
    /// `target_address` to `replacement_address`; report with
    /// [`Injection::patched`].
    Patch { target_address: usize, replacement_address: usize },
    /// Switch the redirect of `hook` on; report with
    /// [`Injection::redirected`].
    Redirect { hook: HookId },
    /// Nothing: the injection has ended, with the enabled hook or with the
    /// error of the step that failed.
    Done(Result<HookId, InjectionError>),
}

/// The mathematical content of an [`Injection`].
pub enum InjectionView {
    Console { module_name: Seq<u8>, symbol_name: Seq<u8>, replacement_address: usize },
    Resolving {
        module_name: Seq<u8>,
        symbol_name: Seq<u8>,
        replacement_address: usize,
        progress: Progress,
    },
    Patching { target: TargetView, replacement_address: usize },
    Redirecting { hook: HookId },
    Active { hook: HookId },
    Failed { error: InjectionError },
}

impl InjectionView {
    /// While the target is being resolved a question is open, and a target
    /// that was found is not at the null address.
    pub open spec fn well_formed(self) -> bool {
        match self {
            InjectionView::Resolving { progress, .. } => progress.pending() is Some
                && progress.consistent(),
            InjectionView::Patching { target, .. } => target.address != 0,
            _ => true,
        }
    }

    /// The step that is due.
    pub open spec fn step(self) -> InjectionStep {
        match self {
            InjectionView::Console { .. } => InjectionStep::OpenConsole,
            InjectionView::Resolving { progress, .. } => InjectionStep::Lookup(
                progress.pending().unwrap(),
            ),
            InjectionView::Patching { target, replacement_address } => InjectionStep::Patch {
                target_address: target.address,
                replacement_address,
            },
            InjectionView::Redirecting { hook } => InjectionStep::Redirect { hook },
            InjectionView::Active { hook } => InjectionStep::Done(Ok(hook)),
            InjectionView::Failed { error } => InjectionStep::Done(Err(error)),
        }
    }

    /// How the injection ended, once it has.
    pub open spec fn outcome(self) -> Option<Result<HookId, InjectionError>> {
        match self {
            InjectionView::Active { hook } => Some(Ok(hook)),
            InjectionView::Failed { error } => Some(Err(error)),
            _ => None,
        }
    }

    /// The injection after the console was or was not opened.
    pub open spec fn console_opened(self, opened: bool) -> InjectionView {
        match self {
            InjectionView::Console { module_name, symbol_name, replacement_address } => if opened {
                InjectionView::Resolving {
                    module_name,
                    symbol_name,
                    replacement_address,
                    progress: Progress::AwaitingModule,
                }
            } else {
                InjectionView::Failed { error: InjectionError::Console }
            },
            _ => self,
        }
    }

    /// The injection after the loader has answered with `reply`, for an
    /// engine that holds `hooks`. A target that already carries a hook is
    /// not patched again.
    pub open spec fn looked_up<T>(self, hooks: Seq<HookView<T>>, reply: usize) -> InjectionView {
        match self {
            InjectionView::Resolving { module_name, symbol_name, replacement_address, progress } => {
                match progress.after_reply(reply) {
                    Progress::Failed { error } => InjectionView::Failed {
                        error: InjectionError::Resolution(error),
                    },
                    Progress::Resolved { address } => if live_on(hooks, address) {
                        InjectionView::Failed {
                            error: InjectionError::Hook(HookError::AlreadyInstalled),
                        }
                    } else {
                        InjectionView::Patching {
                            target: TargetView { module_name, symbol_name, address },
                            replacement_address,
                        }
                    },
                    open => InjectionView::Resolving {
                        module_name,
                        symbol_name,
                        replacement_address,
                        progress: open,
                    },
                }
            },
            _ => self,
        }
    }

    /// The injection and the engine's hooks after the patch was prepared;
    /// `trampoline` is what it produced.
    pub open spec fn patched<T>(self, hooks: Seq<HookView<T>>, trampoline: Option<T>) -> (
        InjectionView,
        Seq<HookView<T>>,
    ) {
        match self {
            InjectionView::Patching { target, replacement_address } => match install_refusal(
                hooks,
                target.address,
                trampoline is Some,
            ) {
                Some(error) => (
                    InjectionView::Failed { error: InjectionError::Hook(error) },
                    hooks,
                ),
                None => (
                    InjectionView::Redirecting { hook: HookId { index: hooks.len() as usize } },
                    hooks.push(
                        HookView {
                            target,
                            replacement_address,
                            trampoline,
                            status: HookStatus::Installed,
                        },
                    ),
                ),
            },
            _ => (self, hooks),
        }
    }

    /// The injection and the engine's hooks after the attempt to switch the
    /// redirect on.
    pub open spec fn redirected<T>(self, hooks: Seq<HookView<T>>, redirected: bool) -> (
        InjectionView,
        Seq<HookView<T>>,
    ) {
        match self {
            InjectionView::Redirecting { hook } => if status_at(
                hooks,
                hook.index as int,
            ).may_enable() && redirected {
                (
                    InjectionView::Active { hook },
                    toggled(hooks, Toggle::Enable { hook, redirected }),
                )
            } else {
                (
                    InjectionView::Failed {
                        error: InjectionError::Hook(HookError::EnableFailed),
                    },
                    hooks,
                )
            },
            _ => (self, hooks),
        }
    }
}

enum Stage {
    Console { resolver: Resolver, replacement_address: usize },
    Resolving { resolver: Resolver, replacement_address: usize },
    Patching { target: TargetFunction, replacement_address: usize },
    Redirecting { hook: HookId },
    Active { hook: HookId },
    Failed { error: InjectionError },
}

/// One injection in progress.
pub struct Injection {
    stage: Stage,
}

impl View for Injection {
    type V = InjectionView;

    closed spec fn view(&self) -> InjectionView {
        match self.stage {
            Stage::Console { resolver, replacement_address } => InjectionView::Console {
                module_name: resolver.module_name(),
                symbol_name: resolver.symbol_name(),
                replacement_address,
            },
            Stage::Resolving { resolver, replacement_address } => InjectionView::Resolving {
                module_name: resolver.module_name(),
                symbol_name: resolver.symbol_name(),
                replacement_address,
                progress: resolver.progress(),
            },
            Stage::Patching { target, replacement_address } => InjectionView::Patching {
                target: target@,
                replacement_address,
            },
            Stage::Redirecting { hook } => InjectionView::Redirecting { hook },
            Stage::Active { hook } => InjectionView::Active { hook },
            Stage::Failed { error } => InjectionView::Failed { error },
        }
    }
}

impl Injection {
    #[verifier::type_invariant]
    spec fn well_formed(self) -> bool {
        match self.stage {
            Stage::Console { resolver, .. } => resolver.progress() == Progress::AwaitingModule,
            Stage::Resolving { resolver, .. } => resolver.progress().pending() is Some,
            _ => true,
        }
    }

    /// An injection that is to send calls of `symbol_name` in `module_name`
    /// to the replacement at `replacement_address`. Nothing has been done
    /// yet.
    pub fn new(module_name: CName, symbol_name: CName, replacement_address: usize) -> (injection:
        Injection)
        ensures
            injection@ == (InjectionView::Console {
                module_name: module_name@,
                symbol_name: symbol_name@,
                replacement_address,
            }),
    {
        Injection {
            stage: Stage::Console {
                resolver: Resolver::new(module_name, symbol_name),
                replacement_address,
            },
        }
    }

    /// The step that is due.
    pub fn step(&self) -> (step: InjectionStep)
        ensures
            step == self@.step(),
            self@.well_formed(),
    {
        proof {
            use_type_invariant(self);
        }
        match &self.stage {
            Stage::Console { .. } => InjectionStep::OpenConsole,
            Stage::Resolving { resolver, .. } => match resolver.next_lookup() {
                Some(lookup) => InjectionStep::Lookup(lookup),
                None => InjectionStep::Done(
                    Err(InjectionError::Resolution(ResolutionError::ModuleNotFound)),
                ),
            },
            Stage::Patching { target, replacement_address } => InjectionStep::Patch {
                target_address: target.resolved_address(),
                replacement_address: *replacement_address,
            },
            Stage::Redirecting { hook } => InjectionStep::Redirect { hook: *hook },
            Stage::Active { hook } => InjectionStep::Done(Ok(*hook)),
            Stage::Failed { error } => InjectionStep::Done(Err(*error)),
        }
    }

    /// The name of the module to look up, while the target is not yet
    /// resolved.
    pub fn module(&self) -> (name: Option<&CName>)
        ensures
            match self@ {
                InjectionView::Console { module_name, .. } => name matches Some(n) && n@
                    == module_name,
                InjectionView::Resolving { module_name, .. } => name matches Some(n) && n@
                    == module_name,
                _ => name is None,
            },
    {
        match &self.stage {
            Stage::Console { resolver, .. } => Some(resolver.module()),
            Stage::Resolving { resolver, .. } => Some(resolver.module()),
            _ => None,
        }
    }

    /// The name of the symbol to look up, while the target is not yet
    /// resolved.
    pub fn symbol(&self) -> (name: Option<&CName>)
        ensures
            match self@ {
                InjectionView::Console { symbol_name, .. } => name matches Some(n) && n@
                    == symbol_name,
                InjectionView::Resolving { symbol_name, .. } => name matches Some(n) && n@
                    == symbol_name,
                _ => name is None,
            },
    {
        match &self.stage {
            Stage::Console { resolver, .. } => Some(resolver.symbol()),
            Stage::Resolving { resolver, .. } => Some(resolver.symbol()),
            _ => None,
        }
    }

    /// How the injection ended: with the enabled hook, or with the error of
    /// the step that failed. `None` while a step is due.
    pub fn outcome(&self) -> (outcome: Option<Result<HookId, InjectionError>>)
        ensures
            outcome == self@.outcome(),
    {
        match &self.stage {
            Stage::Active { hook } => Some(Ok(*hook)),
            Stage::Failed { error } => Some(Err(*error)),
            _ => None,
        }
    }

    /// Reports whether the console was opened. Without a console the
    /// injection fails. The report counts only while that step is due.
    pub fn console_opened(self, opened: bool) -> (next: Injection)
        ensures
            next@ == self@.console_opened(opened),
    {
        proof {
            use_type_invariant(&self);
        }
        match self.stage {
            Stage::Console { resolver, replacement_address } => if opened {
                Injection { stage: Stage::Resolving { resolver, replacement_address } }
            } else {
                Injection { stage: Stage::Failed { error: InjectionError::Console } }
            },
            stage => Injection { stage },
        }
    }

    /// Reports the loader's answer to the question that is due: a handle or
    /// an address, or zero where the loader found nothing. A missing module
    /// or symbol ends the injection, and so does a target on which `engine`
    /// already holds a hook: such a target is not patched again.
    pub fn looked_up<T>(self, engine: &DetourEngine<T>, reply: usize) -> (next: Injection)
        ensures
            next@ == self@.looked_up(engine@, reply),
    {
        proof {
            use_type_invariant(&self);
        }
        match self.stage {
            Stage::Resolving { resolver, replacement_address } => {
                let mut resolver = resolver;
                resolver.supply(reply);
                match resolver.outcome() {
                    None => Injection { stage: Stage::Resolving { resolver, replacement_address } },
                    Some(Err(error)) => Injection {
                        stage: Stage::Failed { error: InjectionError::Resolution(error) },
                    },
                    Some(Ok(address)) => if engine.find(address).is_some() {
                        Injection {
                            stage: Stage::Failed {
                                error: InjectionError::Hook(HookError::AlreadyInstalled),
                            },
                        }
                    } else {
                        match resolver.resolve() {
                            Some(Ok(target)) => Injection {
                                stage: Stage::Patching { target, replacement_address },
                            },
                            _ => Injection {
                                stage: Stage::Failed {
                                    error: InjectionError::Resolution(
                                        ResolutionError::SymbolNotFound,
                                    ),
                                },
                            },
                        }
                    },
                }
            },
            stage => Injection { stage },
        }
    }

    /// Reports the patch: `trampoline` is what it produced, `None` where
    /// the code could not be patched. The hook is recorded in `engine` as
    /// `Installed`; a patch that failed ends the injection and leaves the
    /// engine as it was.
    pub fn patched<T>(self, engine: &mut DetourEngine<T>, trampoline: Option<T>) -> (next:
        Injection)
        ensures
            (next@, final(engine)@) == self@.patched(old(engine)@, trampoline),
            registry_well_formed(old(engine)@) ==> registry_well_formed(final(engine)@),
    {
        proof {
            use_type_invariant(&self);
        }
        match self.stage {
            Stage::Patching { target, replacement_address } => {
                match engine.install(target, replacement_address, trampoline) {
                    Ok(hook) => Injection { stage: Stage::Redirecting { hook } },
                    Err(error) => Injection {
                        stage: Stage::Failed { error: InjectionError::Hook(error) },
                    },
                }
            },
            stage => Injection { stage },
        }
    }

    /// Reports the attempt to switch the redirect on. Where it succeeded
    /// the hook is `Enabled` and the injection has succeeded. Where it did
    /// not, the injection fails and the hook stays as it was, not enabled.
    pub fn redirected<T>(self, engine: &mut DetourEngine<T>, redirected: bool) -> (next: Injection)
        ensures
            (next@, final(engine)@) == self@.redirected(old(engine)@, redirected),
            registry_well_formed(old(engine)@) ==> registry_well_formed(final(engine)@),
    {
        proof {
            use_type_invariant(&self);
        }
        match self.stage {
            Stage::Redirecting { hook } => match engine.enable(hook, redirected) {
                Ok(()) => Injection { stage: Stage::Active { hook } },
                Err(_) => Injection {
                    stage: Stage::Failed { error: InjectionError::Hook(HookError::EnableFailed) },
                },
            },
            stage => Injection { stage },
        }
    }
}

/// How the effects of one injection turn out: whether the console opens,
/// what the loader answers for the module and for the symbol, what the
/// patch produces, and whether the redirect can be switched on.
pub struct Effects<T> {
    pub console_opened: bool,
    pub module_handle: usize,
    pub symbol_address: usize,
    pub trampoline: Option<T>,
    pub redirected: bool,
}

/// The injection and the engine's hooks once every step has been reported
/// as `effects` has it. A report for a step that is not due counts for
/// nothing, so the reports after a failure change nothing.
pub open spec fn injected<T>(start: InjectionView, hooks: Seq<HookView<T>>, effects: Effects<T>)
    -> (InjectionView, Seq<HookView<T>>) {
    let resolving = start.console_opened(effects.console_opened);
    let in_module = resolving.looked_up(hooks, effects.module_handle);
    let resolved = in_module.looked_up(hooks, effects.symbol_address);
    let (installed, recorded) = resolved.patched(hooks, effects.trampoline);
    installed.redirected(recorded, effects.redirected)
}

/// How an injection against `hooks` ends when its effects turn out as
/// `effects` has it: with the error of the first step that fails, or, where
/// none fails, with the new hook.
pub open spec fn expected_outcome<T>(hooks: Seq<HookView<T>>, effects: Effects<T>) -> Result<
    HookId,
    InjectionError,
> {
    if !effects.console_opened {
        Err(InjectionError::Console)
    } else if effects.module_handle == 0 {
        Err(InjectionError::Resolution(ResolutionError::ModuleNotFound))
    } else if effects.symbol_address == 0 {
        Err(InjectionError::Resolution(ResolutionError::SymbolNotFound))
    } else if live_on(hooks, effects.symbol_address) {
        Err(InjectionError::Hook(HookError::AlreadyInstalled))
    } else if effects.trampoline is None {
        Err(InjectionError::Hook(HookError::InstallFailed))
    } else if !effects.redirected {
        Err(InjectionError::Hook(HookError::EnableFailed))
    } else {
        Ok(HookId { index: hooks.len() as usize })
    }
}

/// An injection fails safe. It succeeds exactly if every step does, and
/// then the new hook is `Enabled` on the address that the loader gave.
/// Otherwise it ends with the error of the first step that failed, and no
/// hook is left active: for every address, calls are redirected after the
/// injection exactly if they were before it. Hooks that were there before
/// are untouched either way.
pub proof fn lemma_injection_fails_safe<T>(
    module_name: Seq<u8>,
    symbol_name: Seq<u8>,
    replacement_address: usize,
    hooks: Seq<HookView<T>>,
    effects: Effects<T>,
)
    requires
        hooks.len() <= usize::MAX,
    ensures
        ({
            let start = InjectionView::Console { module_name, symbol_name, replacement_address };
            let (end, after) = injected(start, hooks, effects);
            &&& end.outcome() == Some(expected_outcome(hooks, effects))
            &&& end is Failed ==> forall|address: usize|
                enabled_on(after, address) == enabled_on(hooks, address)
            &&& end matches InjectionView::Active { hook } ==> {
                &&& after.len() == hooks.len() + 1
                &&& is_enabled_on(after, hook.index as int, effects.symbol_address)
                &&& after[hook.index as int].replacement_address == replacement_address
                &&& after[hook.index as int].trampoline == effects.trampoline
                &&& after[hook.index as int].target == (TargetView {
                    module_name,
                    symbol_name,
                    address: effects.symbol_address,
                })
            }
            &&& forall|i: int| 0 <= i < hooks.len() ==> after[i] == hooks[i]
        }),
{
    let start = InjectionView::Console { module_name, symbol_name, replacement_address };
    let (end, after) = injected(start, hooks, effects);
    let added = HookView {
        target: TargetView { module_name, symbol_name, address: effects.symbol_address },
        replacement_address,
        trampoline: effects.trampoline,
        status: HookStatus::Installed,
    };
    assert forall|address: usize| end is Failed implies enabled_on(after, address) == enabled_on(
        hooks,
        address,
    ) by {
        lemma_installed_hook_redirects_nothing(hooks, added, address);
    }
}

} // verus!
