//! The lifecycle coordinator: the order in which the process sets itself up
//! (menu build, menu install, handler registration, plugin registration, run)
//! and how it ends.
use vstd::prelude::*;

verus! {

/// Exit status of a process whose setup failed.
pub const SETUP_FAILURE_STATUS: i32 = 1;

/// Where the process stands.
#[derive(Clone, Copy, Debug, PartialEq, Eq, Structural)]
pub enum LifecycleState {
    Uninitialized,
    /// The menu tree is being built.
    Building,
    /// The built menu tree is being installed.
    Installing,
    HandlersRegistered,
    PluginsRegistered,
    /// The run loop: the one steady state.
    Running,
    /// The process has ended with the given status.
    Exited(i32),
    /// The last window was closed.
    WindowClosed,
}

/// What happens to the process.
#[derive(Clone, Copy, Debug, PartialEq, Eq, Structural)]
pub enum LifecycleEvent {
    /// Setup begins.
    Start,
    /// The current setup stage completed.
    StageSucceeded,
    /// The current setup stage failed.
    StageFailed,
    /// Termination was requested with the given status.
    ExitRequested(i32),
    /// A window was closed, leaving the given number open.
    WindowCloseRequested { remaining_windows: usize },
}

/// Whether the state is one of the setup stages.
pub open spec fn is_setup_stage(s: LifecycleState) -> bool {
    match s {
        LifecycleState::Building | LifecycleState::Installing | LifecycleState::HandlersRegistered
        | LifecycleState::PluginsRegistered => true,
        _ => false,
    }
}

/// The transition function. Setup runs strictly forward, one stage per
/// success; a failed stage ends the process with the setup failure status;
/// only the running process reacts to exit and window-close requests; the
/// ended states never change.
pub open spec fn next_spec(s: LifecycleState, e: LifecycleEvent) -> LifecycleState {
    match (s, e) {
        (LifecycleState::Uninitialized, LifecycleEvent::Start) => LifecycleState::Building,
        (LifecycleState::Building, LifecycleEvent::StageSucceeded) => LifecycleState::Installing,
        (LifecycleState::Installing, LifecycleEvent::StageSucceeded) => LifecycleState::HandlersRegistered,
        (LifecycleState::HandlersRegistered, LifecycleEvent::StageSucceeded) => LifecycleState::PluginsRegistered,
        (LifecycleState::PluginsRegistered, LifecycleEvent::StageSucceeded) => LifecycleState::Running,
        (_, LifecycleEvent::StageFailed) if is_setup_stage(s) => LifecycleState::Exited(SETUP_FAILURE_STATUS),
        (LifecycleState::Running, LifecycleEvent::ExitRequested(status)) => LifecycleState::Exited(status),
        (LifecycleState::Running, LifecycleEvent::WindowCloseRequested { remaining_windows }) => {
            if remaining_windows == 0 {
                LifecycleState::WindowClosed
            } else {
                LifecycleState::Running
            }
        },
        _ => s,
    }
}

/// Moves the process from one state to the next on an event.
pub fn next_state(s: LifecycleState, e: LifecycleEvent) -> (r: LifecycleState)
    ensures
        r == next_spec(s, e),
{
    match (s, e) {
        (LifecycleState::Uninitialized, LifecycleEvent::Start) => LifecycleState::Building,
        (LifecycleState::Building, LifecycleEvent::StageSucceeded) => LifecycleState::Installing,
        (LifecycleState::Installing, LifecycleEvent::StageSucceeded) => LifecycleState::HandlersRegistered,
        (LifecycleState::HandlersRegistered, LifecycleEvent::StageSucceeded) => LifecycleState::PluginsRegistered,
        (LifecycleState::PluginsRegistered, LifecycleEvent::StageSucceeded) => LifecycleState::Running,
        (
            LifecycleState::Building | LifecycleState::Installing | LifecycleState::HandlersRegistered
            | LifecycleState::PluginsRegistered,
            LifecycleEvent::StageFailed,
        ) => LifecycleState::Exited(SETUP_FAILURE_STATUS),
        (LifecycleState::Running, LifecycleEvent::ExitRequested(status)) => LifecycleState::Exited(status),
        (LifecycleState::Running, LifecycleEvent::WindowCloseRequested { remaining_windows }) => {
            if remaining_windows == 0 {
                LifecycleState::WindowClosed
            } else {
                LifecycleState::Running
            }
        },
        _ => s,
    }
}

/// The state reached from `s` after the events, in order.
pub open spec fn run_events(s: LifecycleState, events: Seq<LifecycleEvent>) -> LifecycleState
    decreases events.len(),
{
    if events.len() == 0 {
        s
    } else {
        next_spec(run_events(s, events.drop_last()), events.last())
    }
}

/// The state of a fresh process after the first `k` events.
pub open spec fn state_after(events: Seq<LifecycleEvent>, k: int) -> LifecycleState {
    run_events(LifecycleState::Uninitialized, events.take(k))
}

proof fn lemma_state_after_step(events: Seq<LifecycleEvent>, k: int)
    requires
        0 < k <= events.len(),
    ensures
        state_after(events, k) == next_spec(state_after(events, k - 1), events[k - 1]),
{
    assert(events.take(k).drop_last() =~= events.take(k - 1));
}

/// Installation of the menu starts only once its build has completed: in
/// any run of a fresh process, whenever the menu is being installed, an
/// earlier event completed the build and moved the process from building to
/// installing.
pub proof fn lemma_install_follows_build(events: Seq<LifecycleEvent>, k: int)
    requires
        0 <= k <= events.len(),
        state_after(events, k) == LifecycleState::Installing,
    ensures
        exists|j: int|
            0 <= j < k && state_after(events, j) == LifecycleState::Building && #[trigger] events[j]
                == LifecycleEvent::StageSucceeded && state_after(events, j + 1)
                == LifecycleState::Installing,
    decreases k,
{
    assert(events.take(0) =~= Seq::<LifecycleEvent>::empty());
    lemma_state_after_step(events, k);
    let prev = state_after(events, k - 1);
    if prev == LifecycleState::Building {
        assert(events[k - 1] == LifecycleEvent::StageSucceeded);
    } else {
        lemma_install_follows_build(events, k - 1);
        let j = choose|j: int|
            0 <= j < k - 1 && state_after(events, j) == LifecycleState::Building && #[trigger] events[j]
                == LifecycleEvent::StageSucceeded && state_after(events, j + 1)
                == LifecycleState::Installing;
        assert(events[j] == LifecycleEvent::StageSucceeded);
    }
}

/// A failed menu build prevents any installation: from then on the process
/// stays ended with the setup failure status.
pub proof fn lemma_build_failure_blocks_install(events: Seq<LifecycleEvent>, j: int, k: int)
    requires
        0 <= j < k <= events.len(),
        state_after(events, j) == LifecycleState::Building,
        events[j] == LifecycleEvent::StageFailed,
    ensures
        state_after(events, k) == LifecycleState::Exited(SETUP_FAILURE_STATUS),
        state_after(events, k) != LifecycleState::Installing,
    decreases k - j,
{
    lemma_state_after_step(events, k);
    if k > j + 1 {
        lemma_build_failure_blocks_install(events, j, k - 1);
    }
}

} // verus!
