//! Startup: handing the assembled configuration to the host framework's run
//! loop, with a fail-fast policy on any startup error.

use vstd::prelude::*;
use crate::config::AppConfig;

verus! {

/// The single startup error kind: any failure while assembling the
/// configuration, attaching a plugin, or launching the run loop. It carries
/// the descriptive diagnostic that the process terminates with.
#[derive(Debug, PartialEq, Eq)]
pub struct StartupFailure {
    pub message: String,
}

/// The bootstrapper's lifecycle. It starts `Unstarted`, and startup moves it
/// to exactly one of two terminal states: `Running`, where the framework owns
/// the configuration for the rest of the process's life, or `Aborted`, the
/// fail-fast outcome of any startup error. There is no retry and no
/// partial-degradation state.
#[derive(Debug)]
pub enum BootState {
    /// The configuration is still being assembled; the run loop has not been
    /// invoked.
    Unstarted,
    /// The framework's run loop started; it now owns the configuration.
    Running(AppConfig),
    /// Startup failed; the process terminates with the diagnostic.
    Aborted(StartupFailure),
}

/// The boot state that the framework's startup outcome leads to: success
/// hands the configuration, unchanged, to the run loop; failure aborts with
/// the reported diagnostic.
pub open spec fn boot_state_after(config: AppConfig, outcome: Result<(), StartupFailure>) -> BootState {
    match outcome {
        Ok(_) => BootState::Running(config),
        Err(e) => BootState::Aborted(e),
    }
}

/// The state before startup: nothing decided yet.
pub fn initial_boot_state() -> (s: BootState)
    ensures
        s == BootState::Unstarted,
{
    BootState::Unstarted
}

/// Consumes the configuration together with the framework's startup outcome
/// and produces the terminal boot state. Ownership of the configuration is
/// transferred here exactly once; on success the resulting `Running` state
/// carries it, unchanged, as the framework's property. On failure the state
/// is `Aborted` with the diagnostic: no retry, no partial startup, no
/// fallback capability set.
pub fn complete_startup(config: AppConfig, outcome: Result<(), StartupFailure>) -> (s: BootState)
    ensures
        s == boot_state_after(config, outcome),
        outcome is Ok <==> s is Running,
        outcome is Err <==> s is Aborted,
{
    match outcome {
        Ok(()) => BootState::Running(config),
        Err(e) => BootState::Aborted(e),
    }
}

/// Fail-fast law: whenever any registered plugin or the platform runtime
/// reports a startup failure, startup ends in the aborted state, carrying
/// that very diagnostic, and never reaches the run loop.
pub proof fn lemma_startup_failure_aborts(config: AppConfig, failure: StartupFailure)
    ensures
        boot_state_after(config, Err(failure)) == BootState::Aborted(failure),
        !(boot_state_after(config, Err(failure)) is Running),
{
}

/// Handoff law: a successful startup hands the framework exactly the
/// configuration that was assembled, so the registered-plugin sequence the
/// run loop sees equals the registration order.
pub proof fn lemma_successful_startup_keeps_plugin_order(config: AppConfig)
    ensures
        boot_state_after(config, Ok(())) == BootState::Running(config),
        boot_state_after(config, Ok(())) matches BootState::Running(c) && c@ == config@,
{
}

/// No plugin is mandatory: a configuration with zero registered plugins
/// still reaches the running state whenever the framework itself starts.
pub proof fn lemma_no_plugin_is_mandatory(config: AppConfig)
    requires
        config@.len() == 0,
    ensures
        boot_state_after(config, Ok(())) is Running,
{
}

} // verus!
