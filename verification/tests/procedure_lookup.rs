use overlay_hook::loader::{gl_get_proc_address, proc_query, ProcLog, ProcQuery};
use overlay_hook::overlay::{Lifecycle, OverlayState, Readiness, RenderError};

#[test]
fn proc_query_asks_for_names_without_nul() {
    match proc_query("glCreateShader") {
        ProcQuery::Ask(name) => {
            assert_eq!(name.as_bytes_with_nul().as_slice(), b"glCreateShader\0")
        }
        ProcQuery::Unmatchable => panic!("a plain name is asked for"),
    }
}

#[test]
fn proc_query_answers_names_with_nul_itself() {
    assert!(matches!(proc_query("gl\0CreateShader"), ProcQuery::Unmatchable));
    assert!(matches!(proc_query("\0"), ProcQuery::Unmatchable));
}

#[test]
fn proc_log_turns_a_null_address_into_an_error() {
    let mut log = ProcLog::new();
    assert_eq!(log, ProcLog { asked: 0, missing: 0 });
    assert_eq!(log.record(0x4000), Ok(0x4000));
    assert_eq!(log.record(0), Err(RenderError::ContextInitFailed));
    assert_eq!(log.record(1), Ok(1));
    assert_eq!(log, ProcLog { asked: 3, missing: 1 });
}

#[test]
fn proc_log_verdict_fails_a_build_with_a_missing_procedure() {
    let mut log = ProcLog::new();
    log.record(0x4000);
    assert_eq!(log.verdict(Some(7u8)), Ok(7u8));
    assert_eq!(log.verdict::<u8>(None), Err(RenderError::ContextInitFailed));
    log.record(0);
    assert_eq!(log.verdict(Some(7u8)), Err(RenderError::ContextInitFailed));
    assert_eq!(ProcLog::new().verdict(Some(1u8)), Ok(1u8));
}

#[test]
fn missing_procedure_leaves_the_overlay_failed() {
    let mut overlay: OverlayState<u8> = OverlayState::new();
    assert_eq!(overlay.ensure_initialized(), Readiness::Construct);
    let mut log = ProcLog::new();
    assert!(log.record(0x4000).is_ok());
    assert!(log.record(0).is_err());
    let built = log.verdict(Some(7u8));
    assert_eq!(overlay.complete_initialization(built), Lifecycle::Failed);
    assert_eq!(overlay.failure(), Some(RenderError::ContextInitFailed));
}

#[test]
fn proc_log_counts_stop_at_the_largest_value() {
    let mut log = ProcLog { asked: u64::MAX, missing: u64::MAX };
    assert_eq!(log.record(0), Err(RenderError::ContextInitFailed));
    assert_eq!(log, ProcLog { asked: u64::MAX, missing: u64::MAX });
}

#[test]
fn name_with_nul_resolves_to_null_without_asking() {
    let mut log = ProcLog::new();
    assert_eq!(gl_get_proc_address("gl\0CreateShader", &mut log), Ok(0));
    assert_eq!(gl_get_proc_address("\0", &mut log), Ok(0));
    assert_eq!(log, ProcLog { asked: 0, missing: 0 });
}

#[test]
fn every_answer_of_the_loader_is_noted() {
    let mut log = ProcLog::new();
    let names = ["glCreateShader", "glCreateProgram", "", "no such procedure"];
    let mut missing = 0;
    for (asked, name) in names.iter().enumerate() {
        match gl_get_proc_address(name, &mut log) {
            Ok(address) => assert_ne!(address, 0),
            Err(error) => {
                assert_eq!(error, RenderError::ContextInitFailed);
                missing += 1;
            }
        }
        assert_eq!(log, ProcLog { asked: asked as u64 + 1, missing });
    }
}

#[test]
fn procedures_are_missing_while_no_graphics_library_is_loaded() {
    let mut log = ProcLog::new();
    assert_eq!(
        gl_get_proc_address("glCreateShader", &mut log),
        Err(RenderError::ContextInitFailed)
    );
    assert_eq!(log, ProcLog { asked: 1, missing: 1 });
    assert_eq!(log.verdict(Some(1u8)), Err(RenderError::ContextInitFailed));
}
