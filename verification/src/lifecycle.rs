//! The order in which the service starts, serves and stops.
//!
//! The work of each step is done by the program around this library; what
//! comes after a step, and with which code the process ends, is decided here.

use vstd::prelude::*;

verus! {

/// A step in the life of the service.
#[derive(Clone, Copy, Debug, PartialEq, Eq, Structural)]
pub enum Step {
    /// Start the runtime that everything else runs on.
    StartRuntime,
    /// Build the configuration from the settings.
    DiscoverConfiguration,
    /// Choose the audience provider.
    DiscoverAudiences,
    /// Open the listener at the configured address.
    OpenListener,
    /// Build the validator.
    BuildValidator,
    /// Create the scheduler for the refresh job.
    CreateScheduler,
    /// Register the one job that fetches the validator's keys again.
    RegisterRefreshJob,
    /// Start the scheduler, with or without a job.
    StartScheduler,
    /// Serve checks until the server stops.
    Serve,
    /// Stop the scheduler.
    StopScheduler,
    /// End the process with the given code.
    Exit(u8),
}

/// The code with which the process ends when a step fails: one for each of
/// the three steps before execution, and one for all of execution.
pub open spec fn failure_code(step: Step) -> u8 {
    match step {
        Step::StartRuntime => 1,
        Step::DiscoverConfiguration => 2,
        Step::DiscoverAudiences => 3,
        Step::Exit(code) => code,
        _ => 100,
    }
}

/// The step that follows `step`. A step that failed is followed by the end of
/// the process. The refresh job is registered only where the validator needs
/// a refresh; the scheduler is started either way. The scheduler is stopped
/// only when the server has stopped.
pub open spec fn step_after(step: Step, succeeded: bool, requires_refresh: bool) -> Step {
    if !succeeded {
        Step::Exit(failure_code(step))
    } else {
        match step {
            Step::StartRuntime => Step::DiscoverConfiguration,
            Step::DiscoverConfiguration => Step::DiscoverAudiences,
            Step::DiscoverAudiences => Step::OpenListener,
            Step::OpenListener => Step::BuildValidator,
            Step::BuildValidator => Step::CreateScheduler,
            Step::CreateScheduler => if requires_refresh {
                Step::RegisterRefreshJob
            } else {
                Step::StartScheduler
            },
            Step::RegisterRefreshJob => Step::StartScheduler,
            Step::StartScheduler => Step::Serve,
            Step::Serve => Step::StopScheduler,
            Step::StopScheduler => Step::Exit(0),
            Step::Exit(code) => Step::Exit(code),
        }
    }
}

/// How far a step is into the life of the service.
pub open spec fn rank(step: Step) -> nat {
    match step {
        Step::StartRuntime => 0,
        Step::DiscoverConfiguration => 1,
        Step::DiscoverAudiences => 2,
        Step::OpenListener => 3,
        Step::BuildValidator => 4,
        Step::CreateScheduler => 5,
        Step::RegisterRefreshJob => 6,
        Step::StartScheduler => 7,
        Step::Serve => 8,
        Step::StopScheduler => 9,
        Step::Exit(_) => 10,
    }
}

/// The step with which the service begins.
pub fn first_step() -> (step: Step)
    ensures
        step == Step::StartRuntime,
{
    Step::StartRuntime
}

/// The message under which the failure of a step is logged.
pub open spec fn failure_text(step: Step) -> Seq<char> {
    match step {
        Step::StartRuntime => "error during runtime start"@,
        Step::DiscoverConfiguration => "error during config discovery"@,
        Step::DiscoverAudiences => "error during audience provider discovery"@,
        _ => "error during execution"@,
    }
}

/// The code for the failure of a step, and the message under which it is
/// logged.
pub fn handle_error(step: Step) -> (handled: (u8, String))
    ensures
        handled.0 == failure_code(step),
        handled.1@ == failure_text(step),
{
    match step {
        Step::StartRuntime => (1, "error during runtime start".to_string()),
        Step::DiscoverConfiguration => (2, "error during config discovery".to_string()),
        Step::DiscoverAudiences => (3, "error during audience provider discovery".to_string()),
        Step::Exit(code) => (code, "error during execution".to_string()),
        _ => (100, "error during execution".to_string()),
    }
}

/// The step to take after `step`, given whether it succeeded and whether the
/// validator needs a refresh.
pub fn next_step(step: Step, succeeded: bool, requires_refresh: bool) -> (next: Step)
    ensures
        next == step_after(step, succeeded, requires_refresh),
{
    if !succeeded {
        return Step::Exit(handle_error(step).0);
    }
    match step {
        Step::StartRuntime => Step::DiscoverConfiguration,
        Step::DiscoverConfiguration => Step::DiscoverAudiences,
        Step::DiscoverAudiences => Step::OpenListener,
        Step::OpenListener => Step::BuildValidator,
        Step::BuildValidator => Step::CreateScheduler,
        Step::CreateScheduler => if requires_refresh {
            Step::RegisterRefreshJob
        } else {
            Step::StartScheduler
        },
        Step::RegisterRefreshJob => Step::StartScheduler,
        Step::StartScheduler => Step::Serve,
        Step::Serve => Step::StopScheduler,
        Step::StopScheduler => Step::Exit(0),
        Step::Exit(code) => Step::Exit(code),
    }
}

/// Every step but the last leads further into the life of the service, so no
/// step is taken twice; the end of the process is final.
pub proof fn lemma_steps_advance(step: Step, succeeded: bool, requires_refresh: bool)
    ensures
        step is Exit ==> step_after(step, succeeded, requires_refresh) == step,
        !(step is Exit) ==> rank(step_after(step, succeeded, requires_refresh)) > rank(step),
{
}

/// The refresh job is registered after the scheduler was created, and only
/// where the validator needs a refresh: with pinned keys no job is
/// registered, and the scheduler is started all the same.
pub proof fn lemma_refresh_job_when_needed(step: Step, succeeded: bool, requires_refresh: bool)
    ensures
        step_after(step, succeeded, requires_refresh) == Step::RegisterRefreshJob <==> step
            == Step::CreateScheduler && succeeded && requires_refresh,
        step_after(Step::CreateScheduler, true, false) == Step::StartScheduler,
        step_after(Step::RegisterRefreshJob, true, requires_refresh) == Step::StartScheduler,
{
}

/// The scheduler is stopped after the server has stopped, and at no other
/// time.
pub proof fn lemma_scheduler_stops_after_server(
    step: Step,
    succeeded: bool,
    requires_refresh: bool,
)
    ensures
        step_after(step, succeeded, requires_refresh) == Step::StopScheduler <==> step
            == Step::Serve && succeeded,
{
}

/// The process ends with code 0 only after the scheduler was stopped; each
/// failure ends it with the code of its phase.
pub proof fn lemma_exit_codes(step: Step, succeeded: bool, requires_refresh: bool)
    requires
        !(step is Exit),
    ensures
        step_after(step, succeeded, requires_refresh) == Step::Exit(0) <==> step
            == Step::StopScheduler && succeeded,
        !succeeded ==> step_after(step, succeeded, requires_refresh) == Step::Exit(
            failure_code(step),
        ) && failure_code(step) != 0,
{
}

/// The steps of a life in which nothing fails.
pub open spec fn full_run(requires_refresh: bool) -> Seq<Step> {
    if requires_refresh {
        seq![
            Step::StartRuntime,
            Step::DiscoverConfiguration,
            Step::DiscoverAudiences,
            Step::OpenListener,
            Step::BuildValidator,
            Step::CreateScheduler,
            Step::RegisterRefreshJob,
            Step::StartScheduler,
            Step::Serve,
            Step::StopScheduler,
            Step::Exit(0),
        ]
    } else {
        seq![
            Step::StartRuntime,
            Step::DiscoverConfiguration,
            Step::DiscoverAudiences,
            Step::OpenListener,
            Step::BuildValidator,
            Step::CreateScheduler,
            Step::StartScheduler,
            Step::Serve,
            Step::StopScheduler,
            Step::Exit(0),
        ]
    }
}

/// A life in which nothing fails goes from the first step to the end with
/// code 0, each step followed by the one that `step_after` names. Where the
/// validator needs a refresh, the job is registered in it exactly once; where
/// it needs none, never.
pub proof fn lemma_full_run(requires_refresh: bool)
    ensures
        full_run(requires_refresh)[0] == Step::StartRuntime,
        full_run(requires_refresh).last() == Step::Exit(0),
        forall|i: int|
            0 <= i < full_run(requires_refresh).len() - 1 ==> full_run(requires_refresh)[i + 1]
                == step_after(#[trigger] full_run(requires_refresh)[i], true, requires_refresh),
        forall|i: int|
            0 <= i < full_run(requires_refresh).len() ==> ((#[trigger] full_run(
                requires_refresh,
            )[i]) == Step::RegisterRefreshJob <==> requires_refresh && i == 6),
{
    let run = full_run(requires_refresh);
    assert forall|i: int| 0 <= i < run.len() - 1 implies run[i + 1] == step_after(
        #[trigger] run[i],
        true,
        requires_refresh,
    ) by {
        if requires_refresh {
            assert(i == 0 || i == 1 || i == 2 || i == 3 || i == 4 || i == 5 || i == 6 || i == 7
                || i == 8 || i == 9);
        } else {
            assert(i == 0 || i == 1 || i == 2 || i == 3 || i == 4 || i == 5 || i == 6 || i == 7
                || i == 8);
        }
    }
}

} // verus!
