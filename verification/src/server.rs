//! The service's state machine: what each request asks of the display
//! backend, and how the backend's outcome turns into the new state and the
//! answer to the client. The backend itself (overlay windows and gamma
//! tables) lives outside this crate; the caller performs the call that
//! `ServiceState::backend_call` names and hands back its outcome.

use vstd::prelude::*;

use crate::ipc::{Request, Response};
use crate::text::{decimal, push_decimal};

verus! {

/// The backend's name, reported in every response.
pub const BACKEND_NAME: &'static str = "appkit-metal+coregraphics";

/// Whether XDR brightness is on, and the brightness level it uses.
#[derive(Debug, Clone, Copy, PartialEq, Eq, Structural)]
pub struct ServiceState {
    pub enabled: bool,
    pub brightness: u8,
}

/// What handling a request asks of the backend before the answer can be
/// given.
#[derive(Debug, Clone, Copy, PartialEq, Eq, Structural)]
pub enum BackendCall {
    /// Turn the boost on at `brightness` (on every eligible display), or
    /// turn it off.
    Apply { enabled: bool, brightness: u8 },
    /// Gather the model identifier and the display counts.
    QueryStatus,
    /// Nothing.
    Nothing,
}

/// What the backend reported for a `BackendCall`.
#[derive(Debug, Clone)]
pub enum BackendOutcome {
    /// `Apply` succeeded on `target_count` displays (0 when turning off).
    Applied { target_count: usize },
    /// `Apply` failed; `error` describes why.
    ApplyFailed { error: String },
    /// The answer to `QueryStatus`: the model identifier, if known, the
    /// number of active displays, if listing them succeeded, and the number
    /// of eligible displays.
    StatusReport { model: Option<String>, active_displays: Option<usize>, eligible_displays: usize },
    /// No call was made.
    NotCalled,
}

/// The backend call that `request` needs in state `s`.
pub open spec fn backend_call_for(s: ServiceState, request: Request) -> BackendCall {
    match request {
        Request::Enable => BackendCall::Apply { enabled: true, brightness: s.brightness },
        Request::Disable => BackendCall::Apply { enabled: false, brightness: s.brightness },
        Request::Toggle => BackendCall::Apply { enabled: !s.enabled, brightness: s.brightness },
        Request::SetBrightness { value } => if s.enabled {
            BackendCall::Apply { enabled: true, brightness: value }
        } else {
            BackendCall::Nothing
        },
        Request::Status => BackendCall::QueryStatus,
    }
}

/// Whether `outcome` is an outcome of `call`.
pub open spec fn answers(call: BackendCall, outcome: BackendOutcome) -> bool {
    match call {
        BackendCall::Apply { .. } => outcome is Applied || outcome is ApplyFailed,
        BackendCall::QueryStatus => outcome is StatusReport,
        BackendCall::Nothing => outcome is NotCalled,
    }
}

/// The state after `request`, given the backend's `outcome`. Turning on
/// or off changes `enabled` only when the backend succeeded, except that
/// a failed `Enable` leaves the service off; `SetBrightness` always
/// records the new level.
pub open spec fn next_state(s: ServiceState, request: Request, outcome: BackendOutcome) -> ServiceState {
    match request {
        Request::Enable => ServiceState { enabled: outcome is Applied, ..s },
        Request::Disable => if outcome is Applied {
            ServiceState { enabled: false, ..s }
        } else {
            s
        },
        Request::Toggle => if outcome is Applied {
            ServiceState { enabled: !s.enabled, ..s }
        } else {
            s
        },
        Request::SetBrightness { value } => ServiceState { brightness: value, ..s },
        Request::Status => s,
    }
}

/// `Enabled on N display(s)`.
pub open spec fn enabled_message(target_count: nat) -> Seq<char> {
    "Enabled on "@ + decimal(target_count) + " display(s)"@
}

/// The model text in a status message: the identifier, or `unknown`.
pub open spec fn model_text(model: Option<String>) -> Seq<char> {
    match model {
        Some(m) => m@,
        None => "unknown"@,
    }
}

/// A display count that could not be taken counts as 0.
pub open spec fn count_or_zero(count: Option<usize>) -> nat {
    match count {
        Some(n) => n as nat,
        None => 0,
    }
}

/// The message of the answer to `request` in state `s`, given `outcome`.
pub open spec fn reply_message(s: ServiceState, request: Request, outcome: BackendOutcome) -> Seq<char> {
    match request {
        Request::Enable => match outcome {
            BackendOutcome::Applied { target_count } => enabled_message(target_count as nat),
            BackendOutcome::ApplyFailed { error } => "Enable failed: "@ + error@,
            _ => Seq::empty(),
        },
        Request::Disable => match outcome {
            BackendOutcome::Applied { .. } => "Disabled"@,
            BackendOutcome::ApplyFailed { error } => "Disable failed: "@ + error@,
            _ => Seq::empty(),
        },
        Request::Toggle => match outcome {
            BackendOutcome::Applied { target_count } => if s.enabled {
                "Disabled"@
            } else {
                enabled_message(target_count as nat)
            },
            BackendOutcome::ApplyFailed { error } => if s.enabled {
                "Disable failed: "@ + error@
            } else {
                "Enable failed: "@ + error@
            },
            _ => Seq::empty(),
        },
        Request::SetBrightness { value } => match outcome {
            BackendOutcome::Applied { target_count } => "Brightness set to "@ + decimal(value as nat)
                + "% on "@ + decimal(target_count as nat) + " display(s)"@,
            BackendOutcome::ApplyFailed { error } => "Brightness update failed: "@ + error@,
            _ => "Brightness set to "@ + decimal(value as nat) + "%"@,
        },
        Request::Status => match outcome {
            BackendOutcome::StatusReport { model, active_displays, eligible_displays } =>
                "Service ready. model="@ + model_text(model) + ", active_displays="@ + decimal(
                count_or_zero(active_displays),
            ) + ", eligible_displays="@ + decimal(eligible_displays as nat),
            _ => Seq::empty(),
        },
    }
}

/// Whether the answer asks the client to show the state: for failures and
/// for `Status`.
pub open spec fn reply_shows_state(request: Request, outcome: BackendOutcome) -> bool {
    request is Status || outcome is ApplyFailed
}

/// `r` carries `message` and `show_state`, the state `s`, and the backend's
/// name.
pub open spec fn reports(r: Response, message: Seq<char>, s: ServiceState, show_state: bool) -> bool {
    &&& r.message@ == message
    &&& r.enabled == s.enabled
    &&& r.brightness == s.brightness
    &&& r.backend@ == BACKEND_NAME@
    &&& r.show_state == show_state
}

/// The response carrying `message`, the state `s` and the backend's name.
pub fn response(message: String, state: &ServiceState, show_state: bool) -> (r: Response)
    ensures
        reports(r, message@, *state, show_state),
{
    Response {
        message,
        enabled: state.enabled,
        brightness: state.brightness,
        backend: BACKEND_NAME.to_owned(),
        show_state,
    }
}

fn enabled_text(target_count: usize) -> (text: String)
    ensures
        text@ == enabled_message(target_count as nat),
{
    let mut text = "Enabled on ".to_owned();
    push_decimal(&mut text, target_count as u64);
    text.append(" display(s)");
    text
}

fn failure_text(prefix: &str, error: &String) -> (text: String)
    ensures
        text@ == prefix@ + error@,
{
    let mut text = prefix.to_owned();
    text.append(error.as_str());
    text
}

impl ServiceState {
    /// A service that is off, with the given brightness level.
    pub fn new(brightness: u8) -> (s: Self)
        ensures
            s == (ServiceState { enabled: false, brightness }),
    {
        ServiceState { enabled: false, brightness }
    }

    /// What the backend must do before `request` can be answered.
    pub fn backend_call(&self, request: &Request) -> (call: BackendCall)
        ensures
            call == backend_call_for(*self, *request),
    {
        match request {
            Request::Enable => BackendCall::Apply { enabled: true, brightness: self.brightness },
            Request::Disable => BackendCall::Apply { enabled: false, brightness: self.brightness },
            Request::Toggle => BackendCall::Apply { enabled: !self.enabled, brightness: self.brightness },
            Request::SetBrightness { value } => if self.enabled {
                BackendCall::Apply { enabled: true, brightness: *value }
            } else {
                BackendCall::Nothing
            },
            Request::Status => BackendCall::QueryStatus,
        }
    }

    /// Finishes `request` once the backend has answered the call that
    /// `backend_call` named: updates the state and returns the answer for
    /// the client, which reports the new state.
    pub fn handle_request(&mut self, request: Request, outcome: BackendOutcome) -> (r: Response)
        requires
            answers(backend_call_for(*old(self), request), outcome),
        ensures
            *final(self) == next_state(*old(self), request, outcome),
            reports(
                r,
                reply_message(*old(self), request, outcome),
                *final(self),
                reply_shows_state(request, outcome),
            ),
    {
        match request {
            Request::Enable => match outcome {
                BackendOutcome::Applied { target_count } => {
                    self.enabled = true;
                    response(enabled_text(target_count), self, false)
                },
                BackendOutcome::ApplyFailed { error } => {
                    self.enabled = false;
                    response(failure_text("Enable failed: ", &error), self, true)
                },
                _ => response(String::new(), self, false),
            },
            Request::Disable => match outcome {
                BackendOutcome::Applied { .. } => {
                    self.enabled = false;
                    response("Disabled".to_owned(), self, false)
                },
                BackendOutcome::ApplyFailed { error } => response(
                    failure_text("Disable failed: ", &error),
                    self,
                    true,
                ),
                _ => response(String::new(), self, false),
            },
            Request::Toggle => {
                if self.enabled {
                    match outcome {
                        BackendOutcome::Applied { .. } => {
                            self.enabled = false;
                            response("Disabled".to_owned(), self, false)
                        },
                        BackendOutcome::ApplyFailed { error } => response(
                            failure_text("Disable failed: ", &error),
                            self,
                            true,
                        ),
                        _ => response(String::new(), self, false),
                    }
                } else {
                    match outcome {
                        BackendOutcome::Applied { target_count } => {
                            self.enabled = true;
                            response(enabled_text(target_count), self, false)
                        },
                        BackendOutcome::ApplyFailed { error } => response(
                            failure_text("Enable failed: ", &error),
                            self,
                            true,
                        ),
                        _ => response(String::new(), self, false),
                    }
                }
            },
            Request::SetBrightness { value } => {
                self.brightness = value;
                match outcome {
                    BackendOutcome::Applied { target_count } => {
                        let mut text = "Brightness set to ".to_owned();
                        push_decimal(&mut text, value as u64);
                        text.append("% on ");
                        push_decimal(&mut text, target_count as u64);
                        text.append(" display(s)");
                        response(text, self, false)
                    },
                    BackendOutcome::ApplyFailed { error } => response(
                        failure_text("Brightness update failed: ", &error),
                        self,
                        true,
                    ),
                    _ => {
                        let mut text = "Brightness set to ".to_owned();
                        push_decimal(&mut text, value as u64);
                        text.append("%");
                        response(text, self, false)
                    },
                }
            },
            Request::Status => match outcome {
                BackendOutcome::StatusReport { model, active_displays, eligible_displays } => {
                    let mut text = "Service ready. model=".to_owned();
                    match &model {
                        Some(m) => text.append(m.as_str()),
                        None => text.append("unknown"),
                    }
                    text.append(", active_displays=");
                    let active: usize = match active_displays {
                        Some(n) => n,
                        None => 0,
                    };
                    push_decimal(&mut text, active as u64);
                    text.append(", eligible_displays=");
                    push_decimal(&mut text, eligible_displays as u64);
                    response(text, self, true)
                },
                _ => response(String::new(), self, true),
            },
        }
    }
}


/// One step of applying a brightness setting on the backend.
#[derive(Debug, Clone, Copy, PartialEq, Eq, Structural)]
pub enum BackendStep {
    /// Close every overlay window.
    DisableOverlay,
    /// Give every display back its ColorSync gamma settings.
    RestoreColorSync,
    /// Forget the captured gamma tables.
    ClearGammaTables,
    /// Open one overlay window on each eligible display.
    ActivateOverlay,
    /// Capture the gamma table of eligible display number `target`, scale
    /// it by that display's factor for the brightness, and keep the table.
    AdjustGamma { target: usize },
}

/// Why applying a setting failed, apart from the backend's own errors.
#[derive(Debug, Clone, Copy, PartialEq, Eq, Structural)]
pub enum ApplyError {
    /// Turning on was asked for, but no display supports extended range.
    NoEligibleDisplays,
}

/// How to apply a setting: the steps to perform in order, stopping at the
/// first that fails, and the result to report when all of them succeed.
/// `settle_apply` says what is kept and reported once the steps have run.
#[derive(Debug)]
pub struct ApplyPlan {
    pub steps: Vec<BackendStep>,
    pub result: Result<usize, ApplyError>,
}

/// The steps that apply `enabled` with `target_count` eligible displays.
pub open spec fn apply_steps(enabled: bool, target_count: nat) -> Seq<BackendStep> {
    if !enabled || target_count == 0 {
        seq![BackendStep::DisableOverlay, BackendStep::RestoreColorSync, BackendStep::ClearGammaTables]
    } else {
        seq![BackendStep::ActivateOverlay, BackendStep::RestoreColorSync, BackendStep::ClearGammaTables]
            + Seq::new(target_count, |i: int| BackendStep::AdjustGamma { target: i as usize })
    }
}

/// What applying reports once every step succeeded: the number of
/// displays boosted (0 when turning off), or the lack of eligible displays.
pub open spec fn apply_result(enabled: bool, target_count: usize) -> Result<usize, ApplyError> {
    if !enabled {
        Ok(0)
    } else if target_count == 0 {
        Err(ApplyError::NoEligibleDisplays)
    } else {
        Ok(target_count)
    }
}

/// Plans turning the boost on (at the brightness the caller holds) or off,
/// given the number of eligible displays found.
pub fn plan_apply(enabled: bool, target_count: usize) -> (plan: ApplyPlan)
    ensures
        plan.steps@ == apply_steps(enabled, target_count as nat),
        plan.result == apply_result(enabled, target_count),
{
    let mut steps: Vec<BackendStep> = Vec::new();
    if !enabled || target_count == 0 {
        steps.push(BackendStep::DisableOverlay);
        steps.push(BackendStep::RestoreColorSync);
        steps.push(BackendStep::ClearGammaTables);
        let result = if !enabled { Ok(0) } else { Err(ApplyError::NoEligibleDisplays) };
        return ApplyPlan { steps, result };
    }
    steps.push(BackendStep::ActivateOverlay);
    steps.push(BackendStep::RestoreColorSync);
    steps.push(BackendStep::ClearGammaTables);
    let ghost head = steps@;
    let mut i: usize = 0;
    while i < target_count
        invariant
            i <= target_count,
            head == seq![BackendStep::ActivateOverlay, BackendStep::RestoreColorSync, BackendStep::ClearGammaTables],
            steps@ == head + Seq::new(i as nat, |k: int| BackendStep::AdjustGamma { target: k as usize }),
        decreases target_count - i,
    {
        steps.push(BackendStep::AdjustGamma { target: i });
        i = i + 1;
    }
    ApplyPlan { steps, result: Ok(target_count) }
}

/// Why applying a setting did not succeed.
#[derive(Debug, Clone, Copy, PartialEq, Eq, Structural)]
pub enum ApplyFailure {
    /// The step at `index` of the plan failed; no later step ran.
    StepFailed { index: usize },
    /// Every step ran, and the plan itself reports this error.
    Refused(ApplyError),
}

/// What is left once a plan has run up to its first failure (or to its
/// end): whether the gamma tables held before were dropped, which targets'
/// new tables are kept (in the order they were stored), and what applying
/// reports. Nothing is rolled back.
#[derive(Debug)]
pub struct ApplySettlement {
    pub clear_tables: bool,
    pub kept_targets: Vec<usize>,
    pub result: Result<usize, ApplyFailure>,
}

/// The number of steps that completed: those before the failed one, or
/// all of them.
pub open spec fn steps_completed(steps: Seq<BackendStep>, failed_step: Option<usize>) -> nat {
    match failed_step {
        Some(i) => i as nat,
        None => steps.len(),
    }
}

/// Whether one of the first `n` steps drops the gamma tables.
pub open spec fn clears_within(steps: Seq<BackendStep>, n: nat) -> bool
    decreases n,
{
    if n == 0 {
        false
    } else {
        steps[n - 1] is ClearGammaTables || clears_within(steps, (n - 1) as nat)
    }
}

/// The targets whose adjusted tables are held after the first `n` steps:
/// each completed `AdjustGamma` stores its target's table, and dropping the
/// tables forgets those stored before.
pub open spec fn kept_after(steps: Seq<BackendStep>, n: nat) -> Seq<usize>
    decreases n,
{
    if n == 0 {
        Seq::empty()
    } else {
        match steps[n - 1] {
            BackendStep::ClearGammaTables => Seq::empty(),
            BackendStep::AdjustGamma { target } => kept_after(steps, (n - 1) as nat).push(target),
            _ => kept_after(steps, (n - 1) as nat),
        }
    }
}

/// What applying reports: the failed step, or else the plan's own result.
pub open spec fn settled_result(result: Result<usize, ApplyError>, failed_step: Option<usize>) -> Result<usize, ApplyFailure> {
    match failed_step {
        Some(i) => Err(ApplyFailure::StepFailed { index: i }),
        None => match result {
            Ok(n) => Ok(n),
            Err(e) => Err(ApplyFailure::Refused(e)),
        },
    }
}

/// Settles a plan that ran its steps in order and stopped at
/// `failed_step`, if one failed.
pub fn settle_apply(plan: &ApplyPlan, failed_step: Option<usize>) -> (settled: ApplySettlement)
    requires
        failed_step matches Some(i) ==> i < plan.steps@.len(),
    ensures
        settled.clear_tables == clears_within(plan.steps@, steps_completed(plan.steps@, failed_step)),
        settled.kept_targets@ == kept_after(plan.steps@, steps_completed(plan.steps@, failed_step)),
        settled.result == settled_result(plan.result, failed_step),
{
    let completed: usize = match failed_step {
        Some(i) => i,
        None => plan.steps.len(),
    };
    let mut clear_tables = false;
    let mut kept_targets: Vec<usize> = Vec::new();
    let mut k: usize = 0;
    while k < completed
        invariant
            completed <= plan.steps@.len(),
            completed == steps_completed(plan.steps@, failed_step),
            k <= completed,
            clear_tables == clears_within(plan.steps@, k as nat),
            kept_targets@ == kept_after(plan.steps@, k as nat),
        decreases completed - k,
    {
        match plan.steps[k] {
            BackendStep::ClearGammaTables => {
                clear_tables = true;
                kept_targets = Vec::new();
            },
            BackendStep::AdjustGamma { target } => {
                kept_targets.push(target);
            },
            _ => {},
        }
        k = k + 1;
    }
    let result = match failed_step {
        Some(i) => Err(ApplyFailure::StepFailed { index: i }),
        None => match plan.result {
            Ok(n) => Ok(n),
            Err(e) => Err(ApplyFailure::Refused(e)),
        },
    };
    ApplySettlement { clear_tables, kept_targets, result }
}

/// The text of an `ApplyError`.
pub open spec fn apply_error_message(e: ApplyError) -> Seq<char> {
    match e {
        ApplyError::NoEligibleDisplays => "no eligible EDR/XDR displays detected"@,
    }
}

impl ApplyError {
    /// The text of this error.
    pub fn message(&self) -> (text: String)
        ensures
            text@ == apply_error_message(*self),
    {
        match self {
            ApplyError::NoEligibleDisplays => "no eligible EDR/XDR displays detected".to_owned(),
        }
    }
}


/// Toggling twice, with the backend succeeding both times, brings the
/// service back to where it was.
pub proof fn lemma_toggle_twice(s: ServiceState, first: usize, second: usize)
    ensures
        ({
            let mid = next_state(s, Request::Toggle, BackendOutcome::Applied { target_count: first });
            next_state(mid, Request::Toggle, BackendOutcome::Applied { target_count: second }) == s
        }),
{
}

/// After `SetBrightness { value }`, whatever the backend answered, a
/// status request reports `value` as the brightness (and leaves it so).
pub proof fn lemma_status_reports_set_brightness(
    s: ServiceState,
    value: u8,
    set_outcome: BackendOutcome,
    status_outcome: BackendOutcome,
)
    requires
        answers(backend_call_for(s, Request::SetBrightness { value }), set_outcome),
        answers(
            backend_call_for(next_state(s, Request::SetBrightness { value }, set_outcome), Request::Status),
            status_outcome,
        ),
    ensures
        ({
            let after_set = next_state(s, Request::SetBrightness { value }, set_outcome);
            &&& after_set.brightness == value
            &&& next_state(after_set, Request::Status, status_outcome).brightness == value
            &&& reply_shows_state(Request::Status, status_outcome)
        }),
{
}

/// A status request changes nothing and always shows the state.
pub proof fn lemma_status_is_read_only(s: ServiceState, outcome: BackendOutcome)
    ensures
        next_state(s, Request::Status, outcome) == s,
        reply_shows_state(Request::Status, outcome),
        backend_call_for(s, Request::Status) == BackendCall::QueryStatus,
{
}

/// Only `SetBrightness` changes the brightness level.
pub proof fn lemma_brightness_changes_only_by_set(s: ServiceState, request: Request, outcome: BackendOutcome)
    requires
        !(request is SetBrightness),
    ensures
        next_state(s, request, outcome).brightness == s.brightness,
{
}

/// A backend that fails never turns the service on: after a failed call
/// the service is on only if it was on before and the request was not
/// `Enable` (which leaves it off). Every failure is answered with the
/// state shown.
pub proof fn lemma_failure_never_enables(s: ServiceState, request: Request, error: String)
    requires
        answers(backend_call_for(s, request), BackendOutcome::ApplyFailed { error }),
    ensures
        next_state(s, request, BackendOutcome::ApplyFailed { error }).enabled == (s.enabled
            && !(request is Enable)),
        reply_shows_state(request, BackendOutcome::ApplyFailed { error }),
{
}

/// Successful `Enable` and `Disable` set the state regardless of where it
/// was: enabling or disabling twice is the same as doing it once.
pub proof fn lemma_enable_disable_idempotent(s: ServiceState, n1: usize, n2: usize)
    ensures
        next_state(s, Request::Enable, BackendOutcome::Applied { target_count: n1 }).enabled,
        !next_state(s, Request::Disable, BackendOutcome::Applied { target_count: n1 }).enabled,
        next_state(
            next_state(s, Request::Enable, BackendOutcome::Applied { target_count: n1 }),
            Request::Enable,
            BackendOutcome::Applied { target_count: n2 },
        ) == next_state(s, Request::Enable, BackendOutcome::Applied { target_count: n1 }),
        next_state(
            next_state(s, Request::Disable, BackendOutcome::Applied { target_count: n1 }),
            Request::Disable,
            BackendOutcome::Applied { target_count: n2 },
        ) == next_state(s, Request::Disable, BackendOutcome::Applied { target_count: n1 }),
{
}

/// Turning off never touches a gamma table and always ends with the
/// ColorSync settings restored and no captured table kept; turning on with
/// eligible displays adjusts each display exactly once, in order, after
/// the overlay is up and ColorSync is restored.
pub proof fn lemma_apply_steps_shape(enabled: bool, target_count: nat)
    ensures
        !enabled ==> apply_steps(enabled, target_count) == seq![
            BackendStep::DisableOverlay,
            BackendStep::RestoreColorSync,
            BackendStep::ClearGammaTables,
        ],
        enabled && target_count > 0 ==> {
            &&& apply_steps(enabled, target_count).len() == 3 + target_count
            &&& apply_steps(enabled, target_count)[0] == BackendStep::ActivateOverlay
            &&& apply_steps(enabled, target_count)[1] == BackendStep::RestoreColorSync
            &&& apply_steps(enabled, target_count)[2] == BackendStep::ClearGammaTables
            &&& forall|i: int|
                0 <= i < target_count ==> #[trigger] apply_steps(enabled, target_count)[3 + i]
                    == BackendStep::AdjustGamma { target: i as usize }
        },
{
}


proof fn lemma_on_plan_prefix(n: nat, j: nat)
    requires
        n > 0,
        3 <= j <= 3 + n,
    ensures
        clears_within(apply_steps(true, n), j),
        kept_after(apply_steps(true, n), j) == Seq::new((j - 3) as nat, |i: int| i as usize),
    decreases j,
{
    let steps = apply_steps(true, n);
    assert(steps[2] == BackendStep::ClearGammaTables);
    if j == 3 {
        assert(kept_after(steps, 3) == Seq::<usize>::empty());
        assert(Seq::new(0, |i: int| i as usize) == Seq::<usize>::empty());
    } else {
        lemma_on_plan_prefix(n, (j - 1) as nat);
        assert(steps[j - 1] == BackendStep::AdjustGamma { target: (j - 4) as usize });
        assert(Seq::new((j - 4) as nat, |i: int| i as usize).push((j - 4) as usize) == Seq::new(
            (j - 3) as nat,
            |i: int| i as usize,
        ));
    }
}

/// Applying stops at the first failed step and undoes nothing. When
/// turning on fails while adjusting target `t`, the old tables are gone
/// and the tables of targets `0..t` stay, and the failed step is reported;
/// when it fails before the tables are dropped, the old tables stay and no
/// new one is kept. When every step succeeds, all targets' tables are kept
/// and the plan's result is reported.
pub proof fn lemma_partial_failure_keeps_earlier_targets(n: nat, failed_step: Option<usize>)
    requires
        n > 0,
        failed_step matches Some(i) ==> i < 3 + n,
    ensures
        ({
            let steps = apply_steps(true, n);
            let done = steps_completed(steps, failed_step);
            &&& (failed_step is Some && failed_step->0 < 3) ==> (!clears_within(steps, done)
                && kept_after(steps, done) == Seq::<usize>::empty())
            &&& (failed_step is Some && failed_step->0 >= 3) ==> (clears_within(steps, done)
                && kept_after(steps, done) == Seq::new(
                (failed_step->0 - 3) as nat,
                |k: int| k as usize,
            ))
            &&& failed_step is None ==> clears_within(steps, done) && kept_after(steps, done)
                == Seq::new(n, |k: int| k as usize)
        }),
{
    let steps = apply_steps(true, n);
    assert(steps.len() == 3 + n);
    assert(steps[0] == BackendStep::ActivateOverlay);
    assert(steps[1] == BackendStep::RestoreColorSync);
    match failed_step {
        Some(i) => {
            if i < 3 {
                assert(kept_after(steps, 0) == Seq::<usize>::empty());
                assert(!clears_within(steps, 0));
                if i >= 1 {
                    assert(kept_after(steps, 1) == Seq::<usize>::empty());
                    assert(!clears_within(steps, 1));
                }
                if i >= 2 {
                    assert(kept_after(steps, 2) == Seq::<usize>::empty());
                    assert(!clears_within(steps, 2));
                }
            } else {
                lemma_on_plan_prefix(n, i as nat);
            }
        },
        None => {
            lemma_on_plan_prefix(n, 3 + n);
        },
    }
}


/// What each request asks of the backend, whatever the state: `Enable`
/// always turns the boost on and `Disable` always turns it off, both at
/// the current brightness (even when the service is already in that
/// state); `Toggle` asks for the opposite of the current state;
/// `SetBrightness` re-applies at the new level only while the boost is on
/// and asks nothing otherwise; `Status` only queries.
pub proof fn lemma_backend_call_per_request(s: ServiceState, value: u8)
    ensures
        backend_call_for(s, Request::Enable) == (BackendCall::Apply {
            enabled: true,
            brightness: s.brightness,
        }),
        backend_call_for(s, Request::Disable) == (BackendCall::Apply {
            enabled: false,
            brightness: s.brightness,
        }),
        backend_call_for(s, Request::Toggle) == (BackendCall::Apply {
            enabled: !s.enabled,
            brightness: s.brightness,
        }),
        s.enabled ==> backend_call_for(s, Request::SetBrightness { value }) == (BackendCall::Apply {
            enabled: true,
            brightness: value,
        }),
        !s.enabled ==> backend_call_for(s, Request::SetBrightness { value }) == BackendCall::Nothing,
        backend_call_for(s, Request::Status) == BackendCall::QueryStatus,
{
}

/// The service records what the backend really did: after any request
/// whose backend call applied a setting successfully, the state's
/// `enabled` flag and brightness are exactly the ones that were applied.
pub proof fn lemma_state_matches_applied_setting(s: ServiceState, request: Request, target_count: usize)
    ensures
        backend_call_for(s, request) matches BackendCall::Apply { enabled, brightness } ==> {
            let next = next_state(s, request, BackendOutcome::Applied { target_count });
            next.enabled == enabled && next.brightness == brightness
        },
{
}

/// A failed step is always reported: whenever a step of the plan failed,
/// applying reports that step's failure whatever the plan's own result,
/// and success is reported only when no step failed and the plan itself
/// succeeds, with the plan's count.
pub proof fn lemma_failed_step_is_reported(result: Result<usize, ApplyError>, failed_step: Option<usize>)
    ensures
        failed_step matches Some(i) ==> settled_result(result, failed_step) == Err::<usize, ApplyFailure>(
            ApplyFailure::StepFailed { index: i },
        ),
        settled_result(result, failed_step) matches Ok(n) ==> failed_step is None && result == Ok::<
            usize,
            ApplyError,
        >(n),
        failed_step is None ==> (settled_result(result, failed_step) is Ok <==> result is Ok),
{
}

} // verus!
