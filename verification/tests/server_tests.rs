use nitora::ipc::{Request, Response};
use nitora::server::{
    plan_apply, settle_apply, ApplyError, ApplyFailure, BackendCall, BackendOutcome, BackendStep, ServiceState, BACKEND_NAME,
};

fn applied(n: usize) -> BackendOutcome {
    BackendOutcome::Applied { target_count: n }
}

fn failed(e: &str) -> BackendOutcome {
    BackendOutcome::ApplyFailed { error: e.to_string() }
}

fn check(r: &Response, message: &str, enabled: bool, brightness: u8, show_state: bool) {
    assert_eq!(r.message, message);
    assert_eq!(r.enabled, enabled);
    assert_eq!(r.brightness, brightness);
    assert_eq!(r.backend, BACKEND_NAME);
    assert_eq!(r.backend, "appkit-metal+coregraphics");
    assert_eq!(r.show_state, show_state);
}

#[test]
fn new_service_is_off() {
    let s = ServiceState::new(100);
    assert_eq!(s, ServiceState { enabled: false, brightness: 100 });
}

#[test]
fn backend_calls() {
    let off = ServiceState { enabled: false, brightness: 40 };
    let on = ServiceState { enabled: true, brightness: 40 };
    assert_eq!(off.backend_call(&Request::Enable), BackendCall::Apply { enabled: true, brightness: 40 });
    assert_eq!(on.backend_call(&Request::Disable), BackendCall::Apply { enabled: false, brightness: 40 });
    assert_eq!(off.backend_call(&Request::Toggle), BackendCall::Apply { enabled: true, brightness: 40 });
    assert_eq!(on.backend_call(&Request::Toggle), BackendCall::Apply { enabled: false, brightness: 40 });
    assert_eq!(on.backend_call(&Request::SetBrightness { value: 70 }), BackendCall::Apply { enabled: true, brightness: 70 });
    assert_eq!(off.backend_call(&Request::SetBrightness { value: 70 }), BackendCall::Nothing);
    assert_eq!(off.backend_call(&Request::Status), BackendCall::QueryStatus);
}

#[test]
fn enable_success_and_failure() {
    let mut s = ServiceState::new(100);
    let r = s.handle_request(Request::Enable, applied(2));
    check(&r, "Enabled on 2 display(s)", true, 100, false);
    assert!(s.enabled);

    let r = s.handle_request(Request::Enable, failed("no eligible EDR/XDR displays detected"));
    check(&r, "Enable failed: no eligible EDR/XDR displays detected", false, 100, true);
    assert!(!s.enabled);
}

#[test]
fn disable_success_and_failure() {
    let mut s = ServiceState { enabled: true, brightness: 50 };
    let r = s.handle_request(Request::Disable, failed("boom"));
    check(&r, "Disable failed: boom", true, 50, true);
    let r = s.handle_request(Request::Disable, applied(0));
    check(&r, "Disabled", false, 50, false);
}

#[test]
fn toggle_twice_returns_to_start() {
    let mut s = ServiceState::new(80);
    let r = s.handle_request(Request::Toggle, applied(1));
    check(&r, "Enabled on 1 display(s)", true, 80, false);
    let r = s.handle_request(Request::Toggle, applied(0));
    check(&r, "Disabled", false, 80, false);
    assert_eq!(s, ServiceState::new(80));
}

#[test]
fn toggle_failures_keep_state() {
    let mut s = ServiceState::new(80);
    let r = s.handle_request(Request::Toggle, failed("x"));
    check(&r, "Enable failed: x", false, 80, true);
    let mut s = ServiceState { enabled: true, brightness: 80 };
    let r = s.handle_request(Request::Toggle, failed("y"));
    check(&r, "Disable failed: y", true, 80, true);
}

#[test]
fn set_brightness_while_off_and_on() {
    let mut s = ServiceState::new(100);
    let r = s.handle_request(Request::SetBrightness { value: 42 }, BackendOutcome::NotCalled);
    check(&r, "Brightness set to 42%", false, 42, false);

    let mut s = ServiceState { enabled: true, brightness: 100 };
    let r = s.handle_request(Request::SetBrightness { value: 60 }, applied(3));
    check(&r, "Brightness set to 60% on 3 display(s)", true, 60, false);
    let r = s.handle_request(Request::SetBrightness { value: 0 }, failed("gone"));
    check(&r, "Brightness update failed: gone", true, 0, true);
}

#[test]
fn status_after_set_reports_the_new_brightness() {
    let mut s = ServiceState::new(100);
    s.handle_request(Request::SetBrightness { value: 25 }, BackendOutcome::NotCalled);
    let r = s.handle_request(
        Request::Status,
        BackendOutcome::StatusReport { model: Some("Mac16,1".to_string()), active_displays: Some(2), eligible_displays: 1 },
    );
    check(&r, "Service ready. model=Mac16,1, active_displays=2, eligible_displays=1", false, 25, true);
    let r = s.handle_request(
        Request::Status,
        BackendOutcome::StatusReport { model: None, active_displays: None, eligible_displays: 0 },
    );
    check(&r, "Service ready. model=unknown, active_displays=0, eligible_displays=0", false, 25, true);
    assert_eq!(s, ServiceState { enabled: false, brightness: 25 });
}

#[test]
fn plan_turning_off() {
    let plan = plan_apply(false, 3);
    assert_eq!(
        plan.steps,
        vec![BackendStep::DisableOverlay, BackendStep::RestoreColorSync, BackendStep::ClearGammaTables]
    );
    assert_eq!(plan.result, Ok(0));
}

#[test]
fn plan_turning_on_without_displays() {
    let plan = plan_apply(true, 0);
    assert_eq!(
        plan.steps,
        vec![BackendStep::DisableOverlay, BackendStep::RestoreColorSync, BackendStep::ClearGammaTables]
    );
    assert_eq!(plan.result, Err(ApplyError::NoEligibleDisplays));
    assert_eq!(ApplyError::NoEligibleDisplays.message(), "no eligible EDR/XDR displays detected");
}

#[test]
fn plan_turning_on_with_displays() {
    let plan = plan_apply(true, 2);
    assert_eq!(
        plan.steps,
        vec![
            BackendStep::ActivateOverlay,
            BackendStep::RestoreColorSync,
            BackendStep::ClearGammaTables,
            BackendStep::AdjustGamma { target: 0 },
            BackendStep::AdjustGamma { target: 1 },
        ]
    );
    assert_eq!(plan.result, Ok(2));
}

#[test]
fn settle_when_every_step_succeeds() {
    let plan = plan_apply(true, 3);
    let settled = settle_apply(&plan, None);
    assert!(settled.clear_tables);
    assert_eq!(settled.kept_targets, vec![0, 1, 2]);
    assert_eq!(settled.result, Ok(3));
}

#[test]
fn settle_when_an_adjustment_fails_keeps_earlier_targets() {
    let plan = plan_apply(true, 3);
    let settled = settle_apply(&plan, Some(4));
    assert!(settled.clear_tables);
    assert_eq!(settled.kept_targets, vec![0]);
    assert_eq!(settled.result, Err(ApplyFailure::StepFailed { index: 4 }));
}

#[test]
fn settle_when_activation_fails_keeps_old_tables() {
    let plan = plan_apply(true, 2);
    let settled = settle_apply(&plan, Some(0));
    assert!(!settled.clear_tables);
    assert!(settled.kept_targets.is_empty());
    assert_eq!(settled.result, Err(ApplyFailure::StepFailed { index: 0 }));
}

#[test]
fn settle_turning_on_without_displays() {
    let plan = plan_apply(true, 0);
    let settled = settle_apply(&plan, None);
    assert!(settled.clear_tables);
    assert!(settled.kept_targets.is_empty());
    assert_eq!(settled.result, Err(ApplyFailure::Refused(ApplyError::NoEligibleDisplays)));
}

#[test]
fn settle_turning_off() {
    let plan = plan_apply(false, 0);
    let settled = settle_apply(&plan, None);
    assert!(settled.clear_tables);
    assert!(settled.kept_targets.is_empty());
    assert_eq!(settled.result, Ok(0));
    let settled = settle_apply(&plan, Some(1));
    assert!(!settled.clear_tables);
    assert_eq!(settled.result, Err(ApplyFailure::StepFailed { index: 1 }));
}
