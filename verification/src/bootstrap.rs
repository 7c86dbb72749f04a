//! The process bootstrap orchestrator.
//!
//! The startup sequence is a fixed list of steps: install the cryptography
//! backend, start telemetry, build the metrics pipeline, discover the
//! in-cluster configuration, construct the client, read the port variable,
//! parse it, and run the server. The orchestrator stops at the first failing
//! step, reports exactly one rendered error, and tears telemetry down
//! exactly once whatever happened. The model below states that sequence, and
//! the laws at the end prove its properties for every combination of step
//! outcomes; the per-step functions of the other modules (`install_crypto`
//! and `server_outcome` here, `start_telemetry`, `resolve_client` and
//! `assemble_settings` beside them) each realize one or more transitions of
//! the model, with matching error routing in their contracts.

use vstd::prelude::*;
use crate::errors::{Error, ErrorModel, render};
use crate::ports::{is_port_text, port_parse_cause};

verus! {

/// The bootstrap steps, in the order the orchestrator runs them.
pub enum BootStep {
    Crypto,
    Telemetry,
    Metrics,
    ClientConfig,
    ClientCreate,
    PortRead,
    PortParse,
    Server,
}

/// What one process run's surroundings hold in store for each step: the
/// cause each fallible step would fail with (`None` where it succeeds), and
/// the text the port variable holds when its read succeeds.
pub struct BootConditions {
    pub crypto_ok: bool,
    pub telemetry_error: Option<Seq<char>>,
    pub metrics_error: Option<Seq<char>>,
    pub config_error: Option<Seq<char>>,
    pub client_error: Option<Seq<char>>,
    pub port_read_error: Option<Seq<char>>,
    pub port_text: Seq<char>,
    pub server_error: Option<Seq<char>>,
}

pub open spec fn boot_steps() -> Seq<BootStep> {
    seq![
        BootStep::Crypto,
        BootStep::Telemetry,
        BootStep::Metrics,
        BootStep::ClientConfig,
        BootStep::ClientCreate,
        BootStep::PortRead,
        BootStep::PortParse,
        BootStep::Server,
    ]
}

/// The failure a step meets under the given conditions, already mapped to
/// the taxonomy variant owed to that step; `None` where the step succeeds.
pub open spec fn step_failure(c: BootConditions, s: BootStep) -> Option<ErrorModel> {
    match s {
        BootStep::Crypto => if c.crypto_ok {
            None
        } else {
            Some(ErrorModel::CryptoConfigure)
        },
        BootStep::Telemetry => match c.telemetry_error {
            Some(cause) => Some(ErrorModel::StartTelemetry { cause }),
            None => None,
        },
        BootStep::Metrics => match c.metrics_error {
            Some(cause) => Some(ErrorModel::MetricsRegistryInit { cause }),
            None => None,
        },
        BootStep::ClientConfig => match c.config_error {
            Some(cause) => Some(ErrorModel::K8sClientConfig { cause }),
            None => None,
        },
        BootStep::ClientCreate => match c.client_error {
            Some(cause) => Some(ErrorModel::K8sClientCreate { cause }),
            None => None,
        },
        BootStep::PortRead => match c.port_read_error {
            Some(cause) => Some(
                ErrorModel::MissingEnvVariable { variable: "APISERVER_INTERNAL_PORT"@, cause },
            ),
            None => None,
        },
        BootStep::PortParse => if is_port_text(c.port_text) {
            None
        } else {
            Some(ErrorModel::ParsePort { cause: port_parse_cause(c.port_text) })
        },
        BootStep::Server => match c.server_error {
            Some(cause) => Some(ErrorModel::StartServer { cause }),
            None => None,
        },
    }
}

/// Runs the given steps in order, short-circuiting at the first failure:
/// the steps that execute, and the error of the failing one, if any.
pub open spec fn run_steps(c: BootConditions, steps: Seq<BootStep>) -> (Seq<BootStep>, Option<
    ErrorModel,
>)
    decreases steps.len(),
{
    if steps.len() == 0 {
        (Seq::empty(), None)
    } else {
        match step_failure(c, steps[0]) {
            Some(e) => (seq![steps[0]], Some(e)),
            None => {
                let rest = run_steps(c, steps.drop_first());
                (seq![steps[0]] + rest.0, rest.1)
            },
        }
    }
}

/// One whole bootstrap attempt under the given conditions.
pub open spec fn bootstrap_run(c: BootConditions) -> (Seq<BootStep>, Option<ErrorModel>) {
    run_steps(c, boot_steps())
}

/// What the process does once the bootstrap outcome is known.
pub enum FinalAction {
    /// One write of the rendered error to the termination log.
    Report(Seq<char>),
    /// The global telemetry teardown.
    Teardown,
}

/// The closing actions of one process run: one report of the rendered error
/// when a step failed, and the telemetry teardown in every case.
pub open spec fn closing_actions(c: BootConditions) -> Seq<FinalAction> {
    match bootstrap_run(c).1 {
        Some(e) => seq![FinalAction::Report(render(e)), FinalAction::Teardown],
        None => seq![FinalAction::Teardown],
    }
}

proof fn lemma_run_steps_stops(c: BootConditions, steps: Seq<BootStep>, k: int)
    requires
        0 <= k < steps.len(),
        step_failure(c, steps[k]) is Some,
        forall|j: int| 0 <= j < k ==> step_failure(c, #[trigger] steps[j]) is None,
    ensures
        run_steps(c, steps).0 == steps.take(k + 1),
        run_steps(c, steps).1 == step_failure(c, steps[k]),
    decreases k,
{
    if k == 0 {
        assert(steps.take(1) =~= seq![steps[0]]);
    } else {
        let rest = steps.drop_first();
        assert forall|j: int| 0 <= j < k - 1 implies step_failure(c, #[trigger] rest[j])
            is None by {
            assert(rest[j] == steps[j + 1]);
        }
        assert(rest[k - 1] == steps[k]);
        lemma_run_steps_stops(c, rest, k - 1);
        assert(steps.take(k + 1) =~= seq![steps[0]] + rest.take(k));
    }
}

proof fn lemma_run_steps_all_ok(c: BootConditions, steps: Seq<BootStep>)
    requires
        forall|j: int| 0 <= j < steps.len() ==> step_failure(c, #[trigger] steps[j]) is None,
    ensures
        run_steps(c, steps).0 == steps,
        run_steps(c, steps).1 is None,
    decreases steps.len(),
{
    if steps.len() > 0 {
        let rest = steps.drop_first();
        assert forall|j: int| 0 <= j < rest.len() implies step_failure(c, #[trigger] rest[j])
            is None by {
            assert(rest[j] == steps[j + 1]);
        }
        lemma_run_steps_all_ok(c, rest);
        assert(seq![steps[0]] + rest =~= steps);
    }
}

/// If step `k` is the first to fail, no step after `k` executes: the run
/// performs exactly the steps through `k`, and ends in the error owed to
/// step `k`.
pub proof fn lemma_first_failure_stops_bootstrap(c: BootConditions, k: int)
    requires
        0 <= k < boot_steps().len(),
        step_failure(c, boot_steps()[k]) is Some,
        forall|j: int| 0 <= j < k ==> step_failure(c, #[trigger] boot_steps()[j]) is None,
    ensures
        bootstrap_run(c).0 == boot_steps().take(k + 1),
        bootstrap_run(c).1 == step_failure(c, boot_steps()[k]),
{
    lemma_run_steps_stops(c, boot_steps(), k);
}

/// A run whose steps all succeed performs every step, ends without error,
/// and runs the server exactly once, as its last step.
pub proof fn lemma_bootstrap_completes(c: BootConditions)
    requires
        forall|j: int| 0 <= j < boot_steps().len() ==> step_failure(c, #[trigger] boot_steps()[j])
            is None,
    ensures
        bootstrap_run(c).0 == boot_steps(),
        bootstrap_run(c).1 is None,
        bootstrap_run(c).0.last() == BootStep::Server,
        forall|i: int|
            0 <= i < bootstrap_run(c).0.len() - 1 ==> bootstrap_run(c).0[i] != BootStep::Server,
{
    lemma_run_steps_all_ok(c, boot_steps());
}

/// When a step fails, exactly one report is written, and it carries the
/// rendered description of that step's error; a run without failure writes
/// no report.
pub proof fn lemma_one_report(c: BootConditions)
    ensures
        bootstrap_run(c).1 matches Some(e) ==> closing_actions(c) == seq![
            FinalAction::Report(render(e)),
            FinalAction::Teardown,
        ],
        bootstrap_run(c).1 is None ==> closing_actions(c) == seq![FinalAction::Teardown],
{
}

/// Telemetry teardown happens exactly once per run, independent of which
/// step failed or whether the server ran to completion: it is the last
/// closing action, and no earlier action is a teardown.
pub proof fn lemma_teardown_exactly_once(c: BootConditions)
    ensures
        closing_actions(c).last() == FinalAction::Teardown,
        forall|i: int|
            0 <= i < closing_actions(c).len() - 1 ==> closing_actions(c)[i]
                != FinalAction::Teardown,
{
}

/// Runs the crypto-installer step: a failed installation is fatal and maps
/// to `CryptoConfigure`.
pub fn install_crypto(outcome: Result<(), ()>) -> (r: Result<(), Error>)
    ensures
        r is Ok <==> outcome is Ok,
        r matches Err(e) ==> e@ == ErrorModel::CryptoConfigure,
{
    match outcome {
        Ok(()) => Ok(()),
        Err(()) => Err(Error::CryptoConfigure),
    }
}

/// Maps the server entry point's outcome: a failure becomes `StartServer`
/// with its cause, success propagates unchanged.
pub fn server_outcome(outcome: Result<(), String>) -> (r: Result<(), Error>)
    ensures
        r is Ok <==> outcome is Ok,
        outcome matches Err(cause) ==> (r matches Err(e) && e@ == (ErrorModel::StartServer {
            cause: cause@,
        })),
{
    match outcome {
        Ok(()) => Ok(()),
        Err(cause) => Err(Error::StartServer { cause }),
    }
}

/// The environment variable that overrides the termination-log path.
pub fn termination_log_env_var_name() -> (r: &'static str)
    ensures
        r@ == "TERMINATION_LOG"@,
{
    "TERMINATION_LOG"
}

/// The conventional Kubernetes termination-message path, used when no
/// override is set.
pub fn default_termination_log_path() -> (r: &'static str)
    ensures
        r@ == "/dev/termination-log"@,
{
    "/dev/termination-log"
}

} // verus!
