use shadertoy_viewer::controller::ReloadController;
use shadertoy_viewer::outcome::CompileOutcome;
use shadertoy_viewer::watch::ChangeEvent;

fn write(path: &str) -> ChangeEvent {
    ChangeEvent::Modified(path.to_string())
}

#[test]
fn a_new_controller_renders_the_user_program_that_compiled() {
    let controller = ReloadController::new("default", CompileOutcome::Ready("user"));
    assert_eq!(*controller.select(), "user");
    assert!(!controller.is_degraded());
    assert!(!controller.reload_pending());
    assert_eq!(*controller.outcome(), CompileOutcome::Ready("user"));
}

#[test]
fn a_new_controller_with_a_broken_user_shader_renders_the_default() {
    let controller =
        ReloadController::new("default", CompileOutcome::Failed("syntax error".to_string()));
    assert_eq!(*controller.select(), "default");
    assert!(controller.is_degraded());
    assert!(!controller.reload_pending());
}

#[test]
fn observing_nothing_leaves_the_flag_down() {
    let mut controller = ReloadController::new(0u8, CompileOutcome::Ready(1u8));
    let notices = controller.observe(&vec![]);
    assert!(notices.is_empty());
    assert!(!controller.reload_pending());
}

#[test]
fn observing_other_events_leaves_the_flag_down() {
    let mut controller = ReloadController::new(0u8, CompileOutcome::Ready(1u8));
    let notices = controller.observe(&vec![ChangeEvent::Other]);
    assert!(notices.is_empty());
    assert!(!controller.reload_pending());
}

#[test]
fn observing_a_write_raises_the_flag() {
    let mut controller = ReloadController::new(0u8, CompileOutcome::Ready(1u8));
    let notices = controller.observe(&vec![write("toy.frag")]);
    assert_eq!(notices, vec!["info: toy.frag: file change detected.".to_string()]);
    assert!(controller.reload_pending());
}

#[test]
fn the_flag_stays_up_until_a_rebuild_is_installed() {
    let mut controller = ReloadController::new(0u8, CompileOutcome::Ready(1u8));
    controller.observe(&vec![write("toy.frag")]);
    controller.observe(&vec![ChangeEvent::Other]);
    assert!(controller.reload_pending());
    controller.observe(&vec![]);
    assert!(controller.reload_pending());
    controller.install(CompileOutcome::Ready(2));
    assert!(!controller.reload_pending());
}

#[test]
fn observing_changes_the_flag_only() {
    let mut controller = ReloadController::new("default", CompileOutcome::Ready("user"));
    controller.observe(&vec![write("a"), write("b")]);
    assert_eq!(*controller.select(), "user");
    assert_eq!(*controller.outcome(), CompileOutcome::Ready("user"));
}

#[test]
fn a_successful_rebuild_is_rendered_and_reports_nothing() {
    let mut controller =
        ReloadController::new("default", CompileOutcome::Failed("broken".to_string()));
    let report = controller.install(CompileOutcome::Ready("fixed"));
    assert!(report.is_empty());
    assert_eq!(*controller.select(), "fixed");
    assert!(!controller.is_degraded());
}

#[test]
fn a_failed_rebuild_falls_back_to_the_default_and_reports_the_diagnostic() {
    let mut controller = ReloadController::new("default", CompileOutcome::Ready("user"));
    let report = controller.install(CompileOutcome::Failed("0:1(1): error".to_string()));
    assert_eq!(report, vec!["0:1(1): error".to_string()]);
    assert_eq!(*controller.select(), "default");
    assert!(controller.is_degraded());
    assert_eq!(*controller.outcome(), CompileOutcome::Failed("0:1(1): error".to_string()));
}

#[test]
fn a_failed_rebuild_does_not_keep_the_last_good_program() {
    let mut controller = ReloadController::new("default", CompileOutcome::Ready("good"));
    controller.install(CompileOutcome::Failed("oops".to_string()));
    assert_ne!(*controller.select(), "good");
    assert_eq!(*controller.select(), "default");
}

#[test]
fn working_then_broken_then_fixed() {
    let mut controller = ReloadController::new("default", CompileOutcome::Ready("v1"));
    assert_eq!(*controller.select(), "v1");
    assert!(!controller.is_degraded());

    controller.observe(&vec![write("toy.frag")]);
    let report = controller.install(CompileOutcome::Failed("error: unexpected '}'".to_string()));
    assert_eq!(report, vec!["error: unexpected '}'".to_string()]);
    assert!(controller.is_degraded());
    assert_eq!(*controller.select(), "default");

    controller.observe(&vec![write("toy.frag")]);
    let report = controller.install(CompileOutcome::Ready("v2"));
    assert!(report.is_empty());
    assert!(!controller.is_degraded());
    assert_eq!(*controller.select(), "v2");
}

#[test]
fn installing_the_same_failure_twice_changes_nothing() {
    let mut controller = ReloadController::new("default", CompileOutcome::Ready("user"));
    let first = controller.install(CompileOutcome::Failed("same text".to_string()));
    let after_first = CompileOutcome::Failed("same text".to_string());
    assert_eq!(*controller.outcome(), after_first);
    let second = controller.install(CompileOutcome::Failed("same text".to_string()));
    assert_eq!(*controller.outcome(), after_first);
    assert_eq!(first, second);
    assert_eq!(*controller.select(), "default");
    assert!(!controller.reload_pending());
}

#[test]
fn installing_the_same_program_twice_changes_nothing() {
    let mut controller = ReloadController::new(0u32, CompileOutcome::Failed("x".to_string()));
    controller.install(CompileOutcome::Ready(7));
    controller.install(CompileOutcome::Ready(7));
    assert_eq!(*controller.outcome(), CompileOutcome::Ready(7));
    assert_eq!(*controller.select(), 7);
}

#[test]
fn failures_are_retried_without_limit() {
    let mut controller = ReloadController::new("default", CompileOutcome::Ready("user"));
    for attempt in 0..50 {
        controller.observe(&vec![write("toy.frag")]);
        assert!(controller.reload_pending());
        let text = format!("error {}", attempt);
        let report = controller.install(CompileOutcome::Failed(text.clone()));
        assert_eq!(report, vec![text]);
        assert_eq!(*controller.select(), "default");
    }
    controller.observe(&vec![write("toy.frag")]);
    assert!(controller.reload_pending());
    controller.install(CompileOutcome::Ready("fixed at last"));
    assert_eq!(*controller.select(), "fixed at last");
}
