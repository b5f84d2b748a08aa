use std::collections::HashMap;

use overlay_hook::cname::CName;
use overlay_hook::entry::{
    entry_point_result, should_inject, Injection, InjectionError, InjectionStep, PROCESS_ATTACH,
    PROCESS_DETACH, TARGET_MODULE, TARGET_SYMBOL, THREAD_ATTACH, THREAD_DETACH,
};
use overlay_hook::hook::{DetourEngine, Dispatch, HookError, HookId, HookStatus};
use overlay_hook::orchestrator::{Action, Orchestrator};
use overlay_hook::overlay::{Lifecycle, RenderError};
use overlay_hook::resolver::{Lookup, ResolutionError};

const GRAPHICS: usize = 0x1000_0000;
const PRESENT: usize = 0x1000_2340;
const REPLACEMENT: usize = 0x5000_0000;

#[derive(Debug, PartialEq)]
struct Trampoline {
    leads_to: usize,
}

#[derive(Debug, PartialEq)]
struct Handles {
    frames_drawn: u32,
}

/// A host process in miniature: what is loaded in it, how its effects turn
/// out, and how often each side of the hook was entered.
struct Host {
    modules: HashMap<Vec<u8>, usize>,
    exports: HashMap<(usize, Vec<u8>), usize>,
    console_opens: bool,
    patch_works: bool,
    redirect_works: bool,
    build_works: bool,
    engine: DetourEngine<Trampoline>,
    orchestrator: Option<Orchestrator<Handles>>,
    clock: u64,
    replacement_calls: u32,
    original_calls: u32,
    builds: u32,
    frames_drawn: u32,
    lookups: u32,
    patches: u32,
}

impl Host {
    fn new() -> Host {
        let mut modules = HashMap::new();
        let mut exports = HashMap::new();
        modules.insert(b"graphics.dll".to_vec(), GRAPHICS);
        exports.insert((GRAPHICS, b"present".to_vec()), PRESENT);
        Host {
            modules,
            exports,
            console_opens: true,
            patch_works: true,
            redirect_works: true,
            build_works: true,
            engine: DetourEngine::new(),
            orchestrator: None,
            clock: 0,
            replacement_calls: 0,
            original_calls: 0,
            builds: 0,
            frames_drawn: 0,
            lookups: 0,
            patches: 0,
        }
    }

    fn lookup(&mut self, injection: &Injection, lookup: Lookup) -> usize {
        self.lookups += 1;
        match lookup {
            Lookup::Module => {
                let name = without_nul(injection.module().unwrap());
                self.modules.get(&name).copied().unwrap_or(0)
            }
            Lookup::Symbol { module } => {
                let name = without_nul(injection.symbol().unwrap());
                self.exports.get(&(module, name)).copied().unwrap_or(0)
            }
        }
    }

    /// Runs an injection to its end, carrying out each step that is due.
    fn inject(&mut self, module: &str, symbol: &str) -> Result<HookId, InjectionError> {
        let mut injection = Injection::new(
            CName::new(module).unwrap(),
            CName::new(symbol).unwrap(),
            REPLACEMENT,
        );
        loop {
            injection = match injection.step() {
                InjectionStep::OpenConsole => injection.console_opened(self.console_opens),
                InjectionStep::Lookup(lookup) => {
                    let reply = self.lookup(&injection, lookup);
                    injection.looked_up(&self.engine, reply)
                }
                InjectionStep::Patch { target_address, replacement_address } => {
                    assert_eq!(replacement_address, REPLACEMENT);
                    self.patches += 1;
                    let trampoline = if self.patch_works {
                        Some(Trampoline { leads_to: target_address })
                    } else {
                        None
                    };
                    injection.patched(&mut self.engine, trampoline)
                }
                InjectionStep::Redirect { .. } => {
                    injection.redirected(&mut self.engine, self.redirect_works)
                }
                InjectionStep::Done(outcome) => {
                    assert_eq!(injection.outcome(), Some(outcome));
                    if let Ok(hook) = outcome {
                        self.orchestrator = Some(Orchestrator::new(hook));
                    }
                    return outcome;
                }
            };
        }
    }

    /// The host calls the function at `address`.
    fn call(&mut self, address: usize) {
        self.clock += 16;
        match self.engine.dispatch(address) {
            Dispatch::Original => self.original_calls += 1,
            Dispatch::Replacement { address: replacement, .. } => {
                assert_eq!(replacement, REPLACEMENT);
                self.replacement();
            }
        }
    }

    /// The replacement: one interception.
    fn replacement(&mut self) {
        self.replacement_calls += 1;
        let orchestrator = self.orchestrator.as_mut().unwrap();
        let mut action = orchestrator.intercepted(self.clock);
        loop {
            action = match action {
                Action::Construct => {
                    self.builds += 1;
                    let built = if self.build_works {
                        Ok(Handles { frames_drawn: 0 })
                    } else {
                        Err(RenderError::ContextInitFailed)
                    };
                    orchestrator.constructed(built)
                }
                Action::Draw(_) => {
                    orchestrator.handles_mut().unwrap().frames_drawn += 1;
                    self.frames_drawn += 1;
                    orchestrator.drawn()
                }
                Action::Forward { hook } => {
                    let trampoline = self.engine.call_original(hook).unwrap();
                    assert_eq!(trampoline.leads_to, PRESENT);
                    self.original_calls += 1;
                    return;
                }
            };
        }
    }
}

fn without_nul(name: &CName) -> Vec<u8> {
    let bytes = name.as_bytes_with_nul();
    bytes[..bytes.len() - 1].to_vec()
}

#[test]
fn scenario_resolve_present_in_graphics_dll() {
    let mut host = Host::new();
    let hook = host.inject("graphics.dll", "present").unwrap();
    let direct = host.exports[&(host.modules[&b"graphics.dll".to_vec()], b"present".to_vec())];
    let resolved = host.engine.target(hook).unwrap().resolved_address();
    assert_ne!(resolved, 0);
    assert_eq!(resolved, direct);
}

#[test]
fn scenario_five_calls_reach_replacement_and_original_five_times() {
    let mut host = Host::new();
    host.inject("graphics.dll", "present").unwrap();
    for _ in 0..5 {
        host.call(PRESENT);
    }
    assert_eq!(host.replacement_calls, 5);
    assert_eq!(host.original_calls, 5);
    assert_eq!(host.builds, 1);
    assert_eq!(host.frames_drawn, 5);
}

#[test]
fn scenario_failed_overlay_still_forwards_ten_calls() {
    let mut host = Host::new();
    host.build_works = false;
    host.inject("graphics.dll", "present").unwrap();
    host.call(PRESENT);
    assert_eq!(host.builds, 1);
    assert_eq!(host.original_calls, 1);
    host.original_calls = 0;
    host.build_works = true;
    for _ in 0..10 {
        host.call(PRESENT);
    }
    assert_eq!(host.original_calls, 10);
    assert_eq!(host.frames_drawn, 0);
    assert_eq!(host.builds, 1);
    assert_eq!(host.orchestrator.as_ref().unwrap().overlay().lifecycle(), Lifecycle::Failed);
}

#[test]
fn scenario_disable_after_three_calls_bypasses_replacement() {
    let mut host = Host::new();
    let hook = host.inject("graphics.dll", "present").unwrap();
    for _ in 0..3 {
        host.call(PRESENT);
    }
    assert_eq!(host.replacement_calls, 3);
    assert!(host.engine.disable(hook, true));
    for _ in 0..2 {
        host.call(PRESENT);
    }
    assert_eq!(host.replacement_calls, 3);
    assert_eq!(host.original_calls, 5);
}

#[test]
fn reenable_resumes_redirection_without_resolving_again() {
    let mut host = Host::new();
    let hook = host.inject("graphics.dll", "present").unwrap();
    let lookups = host.lookups;
    host.call(PRESENT);
    assert!(host.engine.disable(hook, true));
    host.call(PRESENT);
    assert_eq!(host.engine.enable(hook, true), Ok(()));
    host.call(PRESENT);
    host.call(PRESENT);
    assert_eq!(host.replacement_calls, 3);
    assert_eq!(host.original_calls, 4);
    assert_eq!(host.lookups, lookups);
    assert_eq!(host.builds, 1);
}

#[test]
fn no_call_is_lost_for_any_number_of_calls() {
    for calls in [0u32, 1, 2, 17, 100] {
        let mut host = Host::new();
        host.inject("graphics.dll", "present").unwrap();
        for _ in 0..calls {
            host.call(PRESENT);
        }
        assert_eq!(host.replacement_calls, calls);
        assert_eq!(host.original_calls, calls);
    }
}

#[test]
fn calls_to_other_functions_are_not_redirected() {
    let mut host = Host::new();
    host.inject("graphics.dll", "present").unwrap();
    host.call(0x1000_9999);
    assert_eq!(host.replacement_calls, 0);
    assert_eq!(host.original_calls, 1);
}

#[test]
fn injection_takes_the_steps_in_order() {
    let mut engine: DetourEngine<Trampoline> = DetourEngine::new();
    let injection = Injection::new(
        CName::new("graphics.dll").unwrap(),
        CName::new("present").unwrap(),
        REPLACEMENT,
    );
    assert_eq!(injection.step(), InjectionStep::OpenConsole);
    assert_eq!(injection.outcome(), None);
    let injection = injection.console_opened(true);
    assert_eq!(injection.step(), InjectionStep::Lookup(Lookup::Module));
    let injection = injection.looked_up(&engine, GRAPHICS);
    assert_eq!(injection.step(), InjectionStep::Lookup(Lookup::Symbol { module: GRAPHICS }));
    let injection = injection.looked_up(&engine, PRESENT);
    assert_eq!(
        injection.step(),
        InjectionStep::Patch { target_address: PRESENT, replacement_address: REPLACEMENT }
    );
    assert!(injection.module().is_none());
    let injection = injection.patched(&mut engine, Some(Trampoline { leads_to: PRESENT }));
    assert_eq!(injection.step(), InjectionStep::Redirect { hook: HookId { index: 0 } });
    assert_eq!(engine.status(HookId { index: 0 }), HookStatus::Installed);
    let injection = injection.redirected(&mut engine, true);
    assert_eq!(injection.step(), InjectionStep::Done(Ok(HookId { index: 0 })));
    assert_eq!(injection.outcome(), Some(Ok(HookId { index: 0 })));
    assert_eq!(engine.status(HookId { index: 0 }), HookStatus::Enabled);
}

#[test]
fn injection_ignores_reports_for_steps_that_are_not_due() {
    let mut engine: DetourEngine<Trampoline> = DetourEngine::new();
    let injection = Injection::new(
        CName::new("graphics.dll").unwrap(),
        CName::new("present").unwrap(),
        REPLACEMENT,
    );
    let injection = injection.looked_up(&engine, GRAPHICS);
    let injection = injection.patched(&mut engine, Some(Trampoline { leads_to: PRESENT }));
    let injection = injection.redirected(&mut engine, true);
    assert_eq!(injection.step(), InjectionStep::OpenConsole);
    assert_eq!(engine.len(), 0);
    let injection = injection.console_opened(true).console_opened(false);
    assert_eq!(injection.step(), InjectionStep::Lookup(Lookup::Module));
}

#[test]
fn injection_fails_without_console() {
    let mut host = Host::new();
    host.console_opens = false;
    assert_eq!(host.inject("graphics.dll", "present"), Err(InjectionError::Console));
    assert_eq!(host.lookups, 0);
    assert_eq!(host.engine.len(), 0);
}

#[test]
fn injection_fails_when_module_is_not_loaded() {
    let mut host = Host::new();
    assert_eq!(
        host.inject("opengl32.dll", "present"),
        Err(InjectionError::Resolution(ResolutionError::ModuleNotFound))
    );
    assert_eq!(host.lookups, 1);
    assert_eq!(host.patches, 0);
}

#[test]
fn injection_fails_when_symbol_is_absent() {
    let mut host = Host::new();
    assert_eq!(
        host.inject("graphics.dll", "wglSwapBuffers"),
        Err(InjectionError::Resolution(ResolutionError::SymbolNotFound))
    );
    assert_eq!(host.patches, 0);
    assert_eq!(host.engine.len(), 0);
}

#[test]
fn injection_fails_when_patch_fails_and_leaves_no_hook() {
    let mut host = Host::new();
    host.patch_works = false;
    assert_eq!(
        host.inject("graphics.dll", "present"),
        Err(InjectionError::Hook(HookError::InstallFailed))
    );
    assert_eq!(host.engine.len(), 0);
    host.call(PRESENT);
    assert_eq!(host.replacement_calls, 0);
    assert_eq!(host.original_calls, 1);
}

#[test]
fn injection_fails_when_redirect_fails_and_leaves_hook_inactive() {
    let mut host = Host::new();
    host.redirect_works = false;
    assert_eq!(
        host.inject("graphics.dll", "present"),
        Err(InjectionError::Hook(HookError::EnableFailed))
    );
    assert_eq!(host.engine.status(HookId { index: 0 }), HookStatus::Installed);
    for _ in 0..4 {
        host.call(PRESENT);
    }
    assert_eq!(host.replacement_calls, 0);
    assert_eq!(host.original_calls, 4);
}

#[test]
fn second_injection_on_same_target_is_refused_before_patching() {
    let mut host = Host::new();
    let hook = host.inject("graphics.dll", "present").unwrap();
    assert_eq!(host.patches, 1);
    assert_eq!(
        host.inject("graphics.dll", "present"),
        Err(InjectionError::Hook(HookError::AlreadyInstalled))
    );
    assert_eq!(host.patches, 1);
    assert_eq!(host.engine.len(), 1);
    assert_eq!(host.engine.status(hook), HookStatus::Enabled);
    host.call(PRESENT);
    assert_eq!(host.replacement_calls, 1);
    assert_eq!(host.original_calls, 1);
}

#[test]
fn entry_point_injects_on_process_attach_only() {
    assert_eq!(PROCESS_ATTACH, 1);
    assert!(should_inject(PROCESS_ATTACH));
    assert!(!should_inject(PROCESS_DETACH));
    assert!(!should_inject(THREAD_ATTACH));
    assert!(!should_inject(THREAD_DETACH));
    assert!(!should_inject(u32::MAX));
}

#[test]
fn entry_point_reports_success_for_other_reasons() {
    let failure = Some(Err(InjectionError::Console));
    for reason in [PROCESS_DETACH, THREAD_ATTACH, THREAD_DETACH, 4, u32::MAX] {
        assert!(entry_point_result(reason, None));
        assert!(entry_point_result(reason, failure));
    }
}

#[test]
fn entry_point_reports_how_the_injection_ended_on_attach() {
    assert!(entry_point_result(PROCESS_ATTACH, Some(Ok(HookId { index: 0 }))));
    assert!(!entry_point_result(PROCESS_ATTACH, None));
    assert!(!entry_point_result(PROCESS_ATTACH, Some(Err(InjectionError::Console))));
    assert!(!entry_point_result(
        PROCESS_ATTACH,
        Some(Err(InjectionError::Resolution(ResolutionError::ModuleNotFound)))
    ));
    assert!(!entry_point_result(
        PROCESS_ATTACH,
        Some(Err(InjectionError::Hook(HookError::EnableFailed)))
    ));
}

#[test]
fn entry_point_on_a_host_without_the_module_fails_and_leaves_host_untouched() {
    let mut host = Host::new();
    host.modules.clear();
    let outcome = if should_inject(PROCESS_ATTACH) {
        Some(host.inject("graphics.dll", "present"))
    } else {
        None
    };
    assert!(!entry_point_result(PROCESS_ATTACH, outcome));
    host.call(PRESENT);
    assert_eq!(host.replacement_calls, 0);
    assert_eq!(host.original_calls, 1);
}

#[test]
fn configured_target_is_the_buffer_swap_of_the_graphics_driver() {
    assert_eq!(TARGET_MODULE, "opengl32.dll");
    assert_eq!(TARGET_SYMBOL, "wglSwapBuffers");
    let module = CName::new(TARGET_MODULE).unwrap();
    let symbol = CName::new(TARGET_SYMBOL).unwrap();
    assert_eq!(module.as_bytes_with_nul().as_slice(), b"opengl32.dll\0");
    assert_eq!(symbol.as_bytes_with_nul().as_slice(), b"wglSwapBuffers\0");

    let mut host = Host::new();
    host.modules.insert(TARGET_MODULE.as_bytes().to_vec(), 0x7ff0_0000);
    host.exports.insert((0x7ff0_0000, TARGET_SYMBOL.as_bytes().to_vec()), 0x7ff0_1230);
    let hook = host.inject(TARGET_MODULE, TARGET_SYMBOL).unwrap();
    assert_eq!(host.engine.target(hook).unwrap().resolved_address(), 0x7ff0_1230);
    assert_eq!(
        host.engine.dispatch(0x7ff0_1230),
        Dispatch::Replacement { hook, address: REPLACEMENT }
    );
}
