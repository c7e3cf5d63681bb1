use vstd::prelude::*;
use crate::cli::LaunchRequest;

verus! {

/// One thing a launch does, in order, before it returns or hands over to the
/// tray application.
#[derive(Clone, Copy, Debug, PartialEq, Eq, Structural)]
pub enum LaunchStep {
    /// Signal the running copy's quit event, which makes it shut down.
    SignalQuit,
    /// Close this launch's own handle to the single-instance mutex: a named
    /// mutex lives as long as some handle to it is open, so this handle alone
    /// would keep the name alive and hide the stopped copy's exit.
    CloseOwnMutex,
    /// Wait, for a bounded time, until the stopped copy is gone, probing the
    /// single-instance mutex by name.
    WaitForExit,
    /// Broadcast the command that switches the display off.
    MonitorOff,
    /// Signal the running copy's banner event, which makes it restore its
    /// tray icon and show the "already running" balloon.
    SignalBanner,
    /// Start the tray application itself.
    StartApp,
}

/// What a launch does, given its flags, whether its own single-instance mutex
/// handle was obtained, and whether the mutex already existed (another copy is
/// running).
pub open spec fn launch_plan(req: LaunchRequest, mutex_created: bool, already_running: bool) -> Seq<LaunchStep> {
    if req.quit || req.monitor_off {
        let stop = if already_running {
            if req.monitor_off && mutex_created {
                seq![LaunchStep::SignalQuit, LaunchStep::CloseOwnMutex, LaunchStep::WaitForExit]
            } else {
                seq![LaunchStep::SignalQuit]
            }
        } else {
            Seq::<LaunchStep>::empty()
        };
        if req.monitor_off {
            stop.push(LaunchStep::MonitorOff)
        } else {
            stop
        }
    } else if already_running {
        seq![LaunchStep::SignalBanner]
    } else {
        seq![LaunchStep::StartApp]
    }
}

/// Decides what this launch does.
pub fn plan_launch(req: LaunchRequest, mutex_created: bool, already_running: bool) -> (plan: Vec<LaunchStep>)
    ensures
        plan@ == launch_plan(req, mutex_created, already_running),
{
    let mut plan: Vec<LaunchStep> = Vec::new();
    if req.quit || req.monitor_off {
        if already_running {
            plan.push(LaunchStep::SignalQuit);
            if req.monitor_off && mutex_created {
                plan.push(LaunchStep::CloseOwnMutex);
                plan.push(LaunchStep::WaitForExit);
            }
        }
        if req.monitor_off {
            plan.push(LaunchStep::MonitorOff);
        }
    } else if already_running {
        plan.push(LaunchStep::SignalBanner);
    } else {
        plan.push(LaunchStep::StartApp);
    }
    assert(plan@ =~= launch_plan(req, mutex_created, already_running));
    plan
}

/// A launch with `--quit` or `--monitor-off` never starts the app.
pub proof fn lemma_stop_flags_never_start_app(req: LaunchRequest, mutex_created: bool, already_running: bool)
    requires
        req.quit || req.monitor_off,
    ensures
        !launch_plan(req, mutex_created, already_running).contains(LaunchStep::StartApp),
{
    let plan = launch_plan(req, mutex_created, already_running);
    assert forall|i: int| 0 <= i < plan.len() implies plan[i] != LaunchStep::StartApp by {}
}

/// `--quit` with nothing running does nothing at all.
pub proof fn lemma_quit_with_nothing_running_does_nothing(req: LaunchRequest, mutex_created: bool)
    requires
        req.quit,
        !req.monitor_off,
    ensures
        launch_plan(req, mutex_created, false) == Seq::<LaunchStep>::empty(),
{
}

/// `--quit` with a copy running only signals that copy to quit.
pub proof fn lemma_quit_signals_running_copy(req: LaunchRequest, mutex_created: bool)
    requires
        req.quit,
        !req.monitor_off,
    ensures
        launch_plan(req, mutex_created, true) == seq![LaunchStep::SignalQuit],
{
}

/// `--monitor-off` switches the display off whether or not a copy was running,
/// and that is the last thing it does.
pub proof fn lemma_monitor_off_always_ends_with_display_off(req: LaunchRequest, mutex_created: bool, already_running: bool)
    requires
        req.monitor_off,
    ensures
        launch_plan(req, mutex_created, already_running).len() > 0,
        launch_plan(req, mutex_created, already_running).last() == LaunchStep::MonitorOff,
        launch_plan(req, mutex_created, already_running).filter(|s: LaunchStep| s == LaunchStep::MonitorOff).len() == 1,
{
    let plan = launch_plan(req, mutex_created, already_running);
    let f = |s: LaunchStep| s == LaunchStep::MonitorOff;
    reveal_with_fuel(Seq::<_>::filter, 5);
    if already_running {
        if mutex_created {
            assert(plan =~= seq![LaunchStep::SignalQuit, LaunchStep::CloseOwnMutex, LaunchStep::WaitForExit, LaunchStep::MonitorOff]);
            assert(plan.drop_last() =~= seq![LaunchStep::SignalQuit, LaunchStep::CloseOwnMutex, LaunchStep::WaitForExit]);
            assert(plan.drop_last().drop_last() =~= seq![LaunchStep::SignalQuit, LaunchStep::CloseOwnMutex]);
            assert(plan.drop_last().drop_last().drop_last() =~= seq![LaunchStep::SignalQuit]);
            assert(plan.drop_last().drop_last().drop_last().drop_last() =~= Seq::<LaunchStep>::empty());
        } else {
            assert(plan =~= seq![LaunchStep::SignalQuit, LaunchStep::MonitorOff]);
            assert(plan.drop_last() =~= seq![LaunchStep::SignalQuit]);
            assert(plan.drop_last().drop_last() =~= Seq::<LaunchStep>::empty());
        }
    } else {
        assert(plan =~= seq![LaunchStep::MonitorOff]);
        assert(plan.drop_last() =~= Seq::<LaunchStep>::empty());
    }
}

/// When `--monitor-off` stops a running copy and holds its own mutex handle,
/// it signals that copy, closes its own handle, then waits for the copy to
/// exit, and only then switches the display off, so that the stopped copy's
/// F15 taps cannot wake the display again.
pub proof fn lemma_display_off_waits_for_stopped_copy(req: LaunchRequest)
    requires
        req.monitor_off,
    ensures
        launch_plan(req, true, true) == seq![
            LaunchStep::SignalQuit,
            LaunchStep::CloseOwnMutex,
            LaunchStep::WaitForExit,
            LaunchStep::MonitorOff,
        ],
{
}

/// Every wait for the stopped copy comes right after the launch closed its own
/// mutex handle: before the wait's first probe, no handle of this launch keeps
/// the mutex's name alive.
pub proof fn lemma_own_handle_closed_before_wait(req: LaunchRequest, mutex_created: bool, already_running: bool, i: int)
    requires
        0 <= i < launch_plan(req, mutex_created, already_running).len(),
        launch_plan(req, mutex_created, already_running)[i] == LaunchStep::WaitForExit,
    ensures
        i > 0,
        launch_plan(req, mutex_created, already_running)[i - 1] == LaunchStep::CloseOwnMutex,
        mutex_created,
{
}

/// Single instance: the app is started exactly when no flag was given and no
/// other copy is running.
pub proof fn lemma_app_starts_only_as_single_instance(req: LaunchRequest, mutex_created: bool, already_running: bool)
    ensures
        launch_plan(req, mutex_created, already_running).contains(LaunchStep::StartApp)
            <==> (!req.quit && !req.monitor_off && !already_running),
{
    let plan = launch_plan(req, mutex_created, already_running);
    if req.quit || req.monitor_off {
        lemma_stop_flags_never_start_app(req, mutex_created, already_running);
    } else if already_running {
        assert(plan[0] != LaunchStep::StartApp);
    } else {
        assert(plan[0] == LaunchStep::StartApp);
    }
}

/// A plain second launch starts nothing of its own: it only pokes the running
/// copy to restore its icon and show the "already running" balloon.
pub proof fn lemma_second_launch_pokes_running_copy(req: LaunchRequest, mutex_created: bool)
    requires
        !req.quit,
        !req.monitor_off,
    ensures
        launch_plan(req, mutex_created, true) == seq![LaunchStep::SignalBanner],
{
}

} // verus!
