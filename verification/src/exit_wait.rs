use vstd::prelude::*;

verus! {

/// At most this many times is the single-instance mutex probed.
pub const EXIT_WAIT_MAX_PROBES: u32 = 100;

/// Pause after each probe that still finds the mutex, in milliseconds.
pub const EXIT_WAIT_POLL_MS: u64 = 20;

/// What one attempt to open the single-instance mutex by name found.
#[derive(Clone, Copy, Debug, PartialEq, Eq, Structural)]
pub enum MutexProbe {
    /// The mutex could be opened: the stopped copy still holds it. The handle
    /// that the probe got is closed again at once.
    StillOpen,
    /// The mutex could not be opened: the last handle to it is closed, so the
    /// stopped copy has exited.
    Gone,
}

/// What to do after a probe.
#[derive(Clone, Copy, Debug, PartialEq, Eq, Structural)]
pub enum WaitStep {
    /// Sleep this many milliseconds, then probe again if the wait wants to.
    Sleep(u64),
    /// The stopped copy is gone: the wait is over.
    Done,
}

/// Milliseconds that a step sleeps.
pub open spec fn sleep_of(step: WaitStep) -> nat {
    match step {
        WaitStep::Sleep(ms) => ms as nat,
        WaitStep::Done => 0,
    }
}

/// The abstract state of a wait: how many probes found the mutex still open,
/// and whether a probe found it gone.
pub struct ExitWaitView {
    pub open_probes: nat,
    pub done: bool,
}

impl ExitWaitView {
    /// The state of a wait that has not probed yet. (The launch closes its own
    /// mutex handle before the first probe: otherwise that handle alone would
    /// keep the name alive.)
    pub open spec fn initial() -> ExitWaitView {
        ExitWaitView { open_probes: 0, done: false }
    }

    /// Whether another probe is due: the copy was not yet seen gone and fewer
    /// than `EXIT_WAIT_MAX_PROBES` probes were made.
    pub open spec fn wants_probe(self) -> bool {
        !self.done && self.open_probes < EXIT_WAIT_MAX_PROBES
    }

    /// The step that follows a probe.
    pub open spec fn step_for(self, probe: MutexProbe) -> WaitStep {
        match probe {
            MutexProbe::StillOpen => WaitStep::Sleep(EXIT_WAIT_POLL_MS),
            MutexProbe::Gone => WaitStep::Done,
        }
    }

    /// The state after a probe.
    pub open spec fn after_probe(self, probe: MutexProbe) -> ExitWaitView {
        match probe {
            MutexProbe::StillOpen => ExitWaitView { open_probes: self.open_probes + 1, done: false },
            MutexProbe::Gone => ExitWaitView { done: true, ..self },
        }
    }

    /// Milliseconds slept so far.
    pub open spec fn slept_ms(self) -> nat {
        self.open_probes * EXIT_WAIT_POLL_MS as nat
    }

    /// The state reached when the probes find `outcomes`, in order, each
    /// probe made only while the wait wants one.
    pub open spec fn run(self, outcomes: Seq<MutexProbe>) -> ExitWaitView
        decreases outcomes.len(),
    {
        if outcomes.len() == 0 || !self.wants_probe() {
            self
        } else {
            self.after_probe(outcomes[0]).run(outcomes.drop_first())
        }
    }

    /// Milliseconds slept by following the steps that the probes return, when
    /// the probes find `outcomes`.
    pub open spec fn steps_slept(self, outcomes: Seq<MutexProbe>) -> nat
        decreases outcomes.len(),
    {
        if outcomes.len() == 0 || !self.wants_probe() {
            0
        } else {
            sleep_of(self.step_for(outcomes[0])) + self.after_probe(outcomes[0]).steps_slept(outcomes.drop_first())
        }
    }

    /// The number of probes made when the probes find `outcomes`.
    pub open spec fn probes_made(self, outcomes: Seq<MutexProbe>) -> nat
        decreases outcomes.len(),
    {
        if outcomes.len() == 0 || !self.wants_probe() {
            0
        } else {
            1 + self.after_probe(outcomes[0]).probes_made(outcomes.drop_first())
        }
    }
}

/// The bounded wait, after `--monitor-off` stopped a running copy, until that
/// copy is really gone: the caller probes the single-instance mutex while
/// `wants_probe` holds and does the step that `on_probe` returns.
pub struct ExitWait {
    open_probes: u32,
    done: bool,
}

impl View for ExitWait {
    type V = ExitWaitView;

    closed spec fn view(&self) -> ExitWaitView {
        ExitWaitView { open_probes: self.open_probes as nat, done: self.done }
    }
}

impl ExitWait {
    #[verifier::type_invariant]
    closed spec fn inv(&self) -> bool {
        self.open_probes <= EXIT_WAIT_MAX_PROBES
    }

    /// A wait that has not probed yet.
    pub fn new() -> (w: ExitWait)
        ensures
            w@ == ExitWaitView::initial(),
    {
        ExitWait { open_probes: 0, done: false }
    }

    /// Whether another probe is due.
    pub fn wants_probe(&self) -> (due: bool)
        ensures
            due == self@.wants_probe(),
    {
        !self.done && self.open_probes < EXIT_WAIT_MAX_PROBES
    }

    /// Records what a probe found and says what to do next.
    pub fn on_probe(&mut self, probe: MutexProbe) -> (step: WaitStep)
        requires
            old(self)@.wants_probe(),
        ensures
            step == old(self)@.step_for(probe),
            final(self)@ == old(self)@.after_probe(probe),
    {
        match probe {
            MutexProbe::StillOpen => {
                self.open_probes = self.open_probes + 1;
                WaitStep::Sleep(EXIT_WAIT_POLL_MS)
            },
            MutexProbe::Gone => {
                self.done = true;
                WaitStep::Done
            },
        }
    }
}

/// Whatever the probes find, a wait makes at most `EXIT_WAIT_MAX_PROBES`
/// probes and sleeps at most two seconds in all, so a wedged copy cannot make
/// the launch hang.
pub proof fn lemma_exit_wait_is_bounded(outcomes: Seq<MutexProbe>)
    ensures
        ExitWaitView::initial().probes_made(outcomes) <= EXIT_WAIT_MAX_PROBES,
        ExitWaitView::initial().run(outcomes).open_probes <= EXIT_WAIT_MAX_PROBES,
        ExitWaitView::initial().run(outcomes).slept_ms() <= 2000,
{
    lemma_run_bounded(ExitWaitView::initial(), outcomes);
}

proof fn lemma_run_bounded(v: ExitWaitView, outcomes: Seq<MutexProbe>)
    requires
        v.open_probes <= EXIT_WAIT_MAX_PROBES,
    ensures
        v.run(outcomes).open_probes <= EXIT_WAIT_MAX_PROBES,
        v.run(outcomes).open_probes >= v.open_probes,
        v.probes_made(outcomes) + v.open_probes <= EXIT_WAIT_MAX_PROBES,
        v.done ==> v.probes_made(outcomes) == 0,
    decreases outcomes.len(),
{
    if outcomes.len() == 0 || !v.wants_probe() {
    } else {
        lemma_run_bounded(v.after_probe(outcomes[0]), outcomes.drop_first());
    }
}

/// The wait ends at the first probe that finds the mutex gone: if the first
/// `k < EXIT_WAIT_MAX_PROBES` probes find it open and the next finds it gone,
/// exactly `k + 1` probes are made and `k` pauses slept.
pub proof fn lemma_exit_wait_stops_when_gone(outcomes: Seq<MutexProbe>, k: int)
    requires
        0 <= k < outcomes.len(),
        k < EXIT_WAIT_MAX_PROBES,
        outcomes[k] == MutexProbe::Gone,
        forall|i: int| 0 <= i < k ==> outcomes[i] == MutexProbe::StillOpen,
    ensures
        ExitWaitView::initial().probes_made(outcomes) == k + 1,
        ExitWaitView::initial().run(outcomes) == (ExitWaitView { open_probes: k as nat, done: true }),
        ExitWaitView::initial().run(outcomes).slept_ms() == k * EXIT_WAIT_POLL_MS,
{
    lemma_stops_when_gone(ExitWaitView::initial(), outcomes, k);
}

proof fn lemma_stops_when_gone(v: ExitWaitView, outcomes: Seq<MutexProbe>, k: int)
    requires
        !v.done,
        0 <= k < outcomes.len(),
        v.open_probes + k < EXIT_WAIT_MAX_PROBES,
        outcomes[k] == MutexProbe::Gone,
        forall|i: int| 0 <= i < k ==> outcomes[i] == MutexProbe::StillOpen,
    ensures
        v.probes_made(outcomes) == k + 1,
        v.run(outcomes) == (ExitWaitView { open_probes: (v.open_probes + k) as nat, done: true }),
    decreases k,
{
    let rest = outcomes.drop_first();
    if k == 0 {
        let w = v.after_probe(outcomes[0]);
        assert(!w.wants_probe());
        assert(w.run(rest) == w);
        assert(w.probes_made(rest) == 0);
    } else {
        assert forall|i: int| 0 <= i < k - 1 implies rest[i] == MutexProbe::StillOpen by {
            assert(rest[i] == outcomes[i + 1]);
        }
        lemma_stops_when_gone(v.after_probe(outcomes[0]), rest, k - 1);
    }
}

/// If every probe finds the mutex still open, the wait gives up after exactly
/// `EXIT_WAIT_MAX_PROBES` probes and two seconds of sleep.
pub proof fn lemma_exit_wait_gives_up(outcomes: Seq<MutexProbe>)
    requires
        outcomes.len() >= EXIT_WAIT_MAX_PROBES,
        forall|i: int| 0 <= i < outcomes.len() ==> outcomes[i] == MutexProbe::StillOpen,
    ensures
        ExitWaitView::initial().probes_made(outcomes) == EXIT_WAIT_MAX_PROBES,
        !ExitWaitView::initial().run(outcomes).wants_probe(),
        ExitWaitView::initial().run(outcomes).slept_ms() == 2000,
{
    lemma_gives_up(ExitWaitView::initial(), outcomes);
}

proof fn lemma_gives_up(v: ExitWaitView, outcomes: Seq<MutexProbe>)
    requires
        !v.done,
        v.open_probes <= EXIT_WAIT_MAX_PROBES,
        v.open_probes + outcomes.len() >= EXIT_WAIT_MAX_PROBES,
        forall|i: int| 0 <= i < outcomes.len() ==> outcomes[i] == MutexProbe::StillOpen,
    ensures
        v.probes_made(outcomes) + v.open_probes == EXIT_WAIT_MAX_PROBES,
        v.run(outcomes) == (ExitWaitView { open_probes: EXIT_WAIT_MAX_PROBES as nat, done: false }),
    decreases outcomes.len(),
{
    if outcomes.len() == 0 || !v.wants_probe() {
    } else {
        let rest = outcomes.drop_first();
        assert forall|i: int| 0 <= i < rest.len() implies rest[i] == MutexProbe::StillOpen by {
            assert(rest[i] == outcomes[i + 1]);
        }
        lemma_gives_up(v.after_probe(outcomes[0]), rest);
    }
}

/// In every state, a probe that finds the mutex gone ends the wait at once:
/// the step is `Done`, no further probe is due, and no pause is added.
pub proof fn lemma_gone_ends_wait_at_once(v: ExitWaitView)
    ensures
        v.step_for(MutexProbe::Gone) == WaitStep::Done,
        v.after_probe(MutexProbe::Gone).done,
        !v.after_probe(MutexProbe::Gone).wants_probe(),
        v.after_probe(MutexProbe::Gone).slept_ms() == v.slept_ms(),
{
}

/// In every state, a probe that still finds the mutex pauses exactly one poll
/// interval, and every step is either that pause or `Done`.
pub proof fn lemma_steps_are_one_poll_or_done(v: ExitWaitView, probe: MutexProbe)
    ensures
        v.step_for(MutexProbe::StillOpen) == WaitStep::Sleep(EXIT_WAIT_POLL_MS),
        v.step_for(probe) == WaitStep::Sleep(EXIT_WAIT_POLL_MS) || v.step_for(probe) == WaitStep::Done,
        v.after_probe(MutexProbe::StillOpen).slept_ms() == v.slept_ms() + EXIT_WAIT_POLL_MS,
{
}

/// Whatever the probes find, following the steps that the wait returns
/// sleeps at most two seconds in all, and exactly as long as the wait's own
/// count of pauses says.
pub proof fn lemma_returned_steps_sleep_at_most_two_seconds(outcomes: Seq<MutexProbe>)
    ensures
        ExitWaitView::initial().steps_slept(outcomes) == ExitWaitView::initial().run(outcomes).slept_ms(),
        ExitWaitView::initial().steps_slept(outcomes) <= 2000,
{
    lemma_steps_slept_matches(ExitWaitView::initial(), outcomes);
    lemma_exit_wait_is_bounded(outcomes);
}

proof fn lemma_steps_slept_matches(v: ExitWaitView, outcomes: Seq<MutexProbe>)
    ensures
        v.steps_slept(outcomes) + v.slept_ms() == v.run(outcomes).slept_ms(),
    decreases outcomes.len(),
{
    if outcomes.len() == 0 || !v.wants_probe() {
    } else {
        let w = v.after_probe(outcomes[0]);
        lemma_steps_slept_matches(w, outcomes.drop_first());
        match outcomes[0] {
            MutexProbe::StillOpen => {
                assert(w.slept_ms() == v.slept_ms() + EXIT_WAIT_POLL_MS) by (nonlinear_arith)
                    requires
                        w.open_probes == v.open_probes + 1,
                        w.slept_ms() == w.open_probes * 20,
                        v.slept_ms() == v.open_probes * 20,
                        EXIT_WAIT_POLL_MS == 20,
                ;
            },
            MutexProbe::Gone => {},
        }
    }
}

} // verus!
