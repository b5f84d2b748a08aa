use overlay_hook::hook::HookId;
use overlay_hook::orchestrator::{Action, Orchestrator};
use overlay_hook::overlay::{Frame, Lifecycle, RenderError};

#[derive(Debug, PartialEq)]
struct Handles {
    frames_drawn: u32,
}

const HOOK: HookId = HookId { index: 0 };

/// Runs one interception to its end and returns the actions it took.
fn intercept(
    orchestrator: &mut Orchestrator<Handles>,
    now: u64,
    build: Result<(), RenderError>,
) -> Vec<Action> {
    let mut actions = Vec::new();
    let mut action = orchestrator.intercepted(now);
    loop {
        actions.push(action);
        action = match action {
            Action::Construct => {
                orchestrator.constructed(build.map(|()| Handles { frames_drawn: 0 }))
            }
            Action::Draw(_) => {
                orchestrator.handles_mut().unwrap().frames_drawn += 1;
                orchestrator.drawn()
            }
            Action::Forward { .. } => return actions,
        };
    }
}

#[test]
fn new_orchestrator_has_an_unused_overlay() {
    let orchestrator: Orchestrator<Handles> = Orchestrator::new(HookId { index: 3 });
    assert_eq!(orchestrator.hook(), HookId { index: 3 });
    assert_eq!(orchestrator.overlay().lifecycle(), Lifecycle::Uninitialized);
    assert_eq!(orchestrator.overlay().frames(), 0);
}

#[test]
fn first_interception_builds_then_draws_then_forwards() {
    let mut orchestrator = Orchestrator::new(HOOK);
    let actions = intercept(&mut orchestrator, 1_000, Ok(()));
    assert_eq!(
        actions,
        vec![
            Action::Construct,
            Action::Draw(Frame { index: 0, delta: 0, elapsed: 0 }),
            Action::Forward { hook: HOOK },
        ]
    );
    assert_eq!(orchestrator.overlay().lifecycle(), Lifecycle::Ready);
}

#[test]
fn later_interceptions_draw_then_forward() {
    let mut orchestrator = Orchestrator::new(HOOK);
    intercept(&mut orchestrator, 1_000, Ok(()));
    let second = intercept(&mut orchestrator, 1_016, Ok(()));
    assert_eq!(
        second,
        vec![
            Action::Draw(Frame { index: 1, delta: 16, elapsed: 16 }),
            Action::Forward { hook: HOOK },
        ]
    );
    let third = intercept(&mut orchestrator, 1_050, Ok(()));
    assert_eq!(
        third,
        vec![
            Action::Draw(Frame { index: 2, delta: 34, elapsed: 50 }),
            Action::Forward { hook: HOOK },
        ]
    );
    assert_eq!(orchestrator.overlay().handles().unwrap().frames_drawn, 3);
}

#[test]
fn failed_build_forwards_without_drawing() {
    let mut orchestrator = Orchestrator::new(HOOK);
    let first = intercept(&mut orchestrator, 5, Err(RenderError::ContextInitFailed));
    assert_eq!(first, vec![Action::Construct, Action::Forward { hook: HOOK }]);
    assert_eq!(orchestrator.overlay().lifecycle(), Lifecycle::Failed);
    for round in 0..10u64 {
        let later = intercept(&mut orchestrator, 6 + round, Ok(()));
        assert_eq!(later, vec![Action::Forward { hook: HOOK }]);
    }
    assert_eq!(orchestrator.overlay().lifecycle(), Lifecycle::Failed);
    assert_eq!(orchestrator.overlay().frames(), 0);
}

#[test]
fn interception_during_a_build_forwards_at_once() {
    let mut orchestrator: Orchestrator<Handles> = Orchestrator::new(HOOK);
    assert_eq!(orchestrator.intercepted(10), Action::Construct);
    assert_eq!(orchestrator.intercepted(11), Action::Forward { hook: HOOK });
    assert_eq!(orchestrator.intercepted(12), Action::Forward { hook: HOOK });
    assert_eq!(orchestrator.overlay().lifecycle(), Lifecycle::Initializing);
    assert_eq!(
        orchestrator.constructed(Ok(Handles { frames_drawn: 0 })),
        Action::Draw(Frame { index: 0, delta: 1, elapsed: 1 })
    );
    assert_eq!(orchestrator.drawn(), Action::Forward { hook: HOOK });
}

#[test]
fn every_interception_forwards_exactly_once_and_last() {
    let mut orchestrator = Orchestrator::new(HOOK);
    let mut builds = 0;
    for round in 0..50u64 {
        let actions = intercept(&mut orchestrator, round * 7, Ok(()));
        let forwards =
            actions.iter().filter(|action| matches!(action, Action::Forward { .. })).count();
        assert_eq!(forwards, 1);
        assert_eq!(actions.last(), Some(&Action::Forward { hook: HOOK }));
        builds += actions.iter().filter(|action| matches!(action, Action::Construct)).count();
    }
    assert_eq!(builds, 1);
    assert_eq!(orchestrator.overlay().frames(), 50);
}

#[test]
fn clock_that_runs_backwards_gives_no_time() {
    let mut orchestrator = Orchestrator::new(HOOK);
    intercept(&mut orchestrator, 1_000, Ok(()));
    let back = intercept(&mut orchestrator, 900, Ok(()));
    assert_eq!(back[0], Action::Draw(Frame { index: 1, delta: 0, elapsed: 0 }));
    let forth = intercept(&mut orchestrator, 950, Ok(()));
    assert_eq!(forth[0], Action::Draw(Frame { index: 2, delta: 50, elapsed: 50 }));
}

#[test]
fn time_is_measured_between_interceptions_even_without_frames() {
    let mut orchestrator: Orchestrator<Handles> = Orchestrator::new(HOOK);
    assert_eq!(orchestrator.intercepted(100), Action::Construct);
    assert_eq!(orchestrator.intercepted(130), Action::Forward { hook: HOOK });
    assert_eq!(
        orchestrator.constructed(Ok(Handles { frames_drawn: 0 })),
        Action::Draw(Frame { index: 0, delta: 30, elapsed: 30 })
    );
    assert_eq!(
        orchestrator.intercepted(u64::MAX),
        Action::Draw(Frame { index: 1, delta: u64::MAX - 130, elapsed: u64::MAX - 100 })
    );
}

#[test]
fn report_of_a_build_nobody_asked_for_changes_nothing() {
    let mut orchestrator: Orchestrator<Handles> = Orchestrator::new(HOOK);
    assert_eq!(
        orchestrator.constructed(Ok(Handles { frames_drawn: 0 })),
        Action::Forward { hook: HOOK }
    );
    assert_eq!(orchestrator.overlay().lifecycle(), Lifecycle::Uninitialized);
    assert!(orchestrator.handles_mut().is_none());
}
