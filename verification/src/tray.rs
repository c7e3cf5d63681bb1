use vstd::prelude::*;

verus! {

/// Interval between F15 taps, in seconds.
pub const KEYPRESS_INTERVAL_SECS: u64 = 59;

/// Delay of the launch balloon after startup, in milliseconds, so that the
/// shell has settled the tray icon before the balloon is shown.
pub const LAUNCH_BANNER_DELAY_MS: u64 = 300;

/// Tooltip of the tray icon, also the title of its balloons.
pub open spec fn tray_tip_spec() -> Seq<char> {
    "No Sleep Till Brooklyn"@
}

/// Tooltip of the tray icon, also the title of its balloons.
pub fn tray_tip() -> (tip: &'static str)
    ensures
        tip@ == tray_tip_spec(),
{
    "No Sleep Till Brooklyn"
}

/// The balloons the tray icon shows.
#[derive(Clone, Copy, Debug, PartialEq, Eq, Structural)]
pub enum BannerKind {
    /// Shown once, shortly after the app is first launched.
    Launch,
    /// Shown when a second copy is started while this one runs.
    AlreadyRunning,
}

/// The message of each balloon.
pub open spec fn banner_text_spec(kind: BannerKind) -> Seq<char> {
    match kind {
        BannerKind::Launch => "Keeping this PC awake. Right-click the tray icon to exit."@,
        BannerKind::AlreadyRunning => "Already running — no second copy started. Right-click the tray icon to exit."@,
    }
}

/// The message of a balloon.
pub fn banner_text(kind: BannerKind) -> (text: &'static str)
    ensures
        text@ == banner_text_spec(kind),
{
    match kind {
        BannerKind::Launch => "Keeping this PC awake. Right-click the tray icon to exit.",
        BannerKind::AlreadyRunning => "Already running — no second copy started. Right-click the tray icon to exit.",
    }
}

/// Something the tray application must do in the outside world.
#[derive(Clone, Copy, Debug, PartialEq, Eq, Structural)]
pub enum TrayAction {
    /// Enable (`true`) or release (`false`) the keep-awake request.
    SetKeepAwake(bool),
    /// Start the repeating F15 timer.
    StartTimer,
    /// Stop the repeating F15 timer.
    StopTimer,
    /// Start the one-shot launch-balloon timer.
    StartLaunchTimer,
    /// Stop the one-shot launch-balloon timer.
    StopLaunchTimer,
    /// Tap F15 once.
    SendF15,
    /// Watch the window's messages for this registered message id, which the
    /// shell broadcasts as `TaskbarCreated` when it rebuilds the tray.
    WatchTaskbarCreated(u32),
    /// Add the tray icon to the notification area again.
    ReaddTrayIcon,
    /// Show a balloon on the tray icon.
    ShowBanner(BannerKind),
    /// Pop the tray menu up at the cursor.
    ShowMenu,
    /// Leave the message loop: the process ends.
    StopDispatch,
}

/// Something that happened to the tray application.
#[derive(Clone, Copy, Debug, PartialEq, Eq, Structural)]
pub enum TrayEvent {
    /// The window was created; the argument is the id that registering the
    /// `TaskbarCreated` message gave (0 if registering failed).
    Init(u32),
    /// A raw message reached the window.
    RawMessage(u32),
    /// The tray icon was left-clicked.
    TrayLeftClick,
    /// The tray icon's context menu was requested.
    TrayContextMenu,
    /// The menu's Exit item was chosen.
    MenuExit,
    /// A second plain launch signalled the banner event.
    BannerNotice,
    /// A `--quit` or `--monitor-off` launch signalled the quit event.
    QuitNotice,
    /// The F15 timer fired.
    TimerTick,
    /// The launch-balloon timer fired.
    LaunchTimerTick,
}

/// The state with which the tray application decides.
pub struct TrayState {
    /// The registered `TaskbarCreated` message id, once one was obtained.
    pub taskbar_created: Option<u32>,
    /// The keep-awake request is in force.
    pub keep_awake: bool,
    /// The F15 timer runs.
    pub timer_running: bool,
    /// The launch-balloon timer runs.
    pub launch_timer_running: bool,
    /// The message loop runs.
    pub dispatching: bool,
}

impl TrayState {
    /// A registered message id is never 0.
    pub open spec fn wf(self) -> bool {
        self.taskbar_created != Some(0u32)
    }

    /// The state before the application started.
    pub open spec fn initial() -> TrayState {
        TrayState {
            taskbar_created: None,
            keep_awake: false,
            timer_running: false,
            launch_timer_running: false,
            dispatching: false,
        }
    }

    /// The state once the application started.
    pub open spec fn started(self) -> TrayState {
        TrayState { keep_awake: true, timer_running: true, launch_timer_running: true, dispatching: true, ..self }
    }

    /// The state once the application exits.
    pub open spec fn exited(self) -> TrayState {
        TrayState { keep_awake: false, timer_running: false, dispatching: false, ..self }
    }

    /// The actions of starting the application.
    pub open spec fn start_actions() -> Seq<TrayAction> {
        seq![TrayAction::SetKeepAwake(true), TrayAction::StartTimer, TrayAction::StartLaunchTimer]
    }

    /// The actions of exiting: release the keep-awake request, stop the timer,
    /// leave the message loop.
    pub open spec fn exit_actions() -> Seq<TrayAction> {
        seq![TrayAction::SetKeepAwake(false), TrayAction::StopTimer, TrayAction::StopDispatch]
    }

    /// The next state and the actions after an event.
    pub open spec fn step(self, e: TrayEvent) -> (TrayState, Seq<TrayAction>) {
        match e {
            TrayEvent::Init(id) => if id != 0 {
                (TrayState { taskbar_created: Some(id), ..self }, seq![TrayAction::WatchTaskbarCreated(id)])
            } else {
                (self, Seq::empty())
            },
            TrayEvent::RawMessage(msg) => (self, if self.taskbar_created == Some(msg) {
                seq![TrayAction::ReaddTrayIcon]
            } else {
                Seq::empty()
            }),
            TrayEvent::TrayLeftClick => (self, seq![TrayAction::ShowMenu]),
            TrayEvent::TrayContextMenu => (self, seq![TrayAction::ShowMenu]),
            TrayEvent::MenuExit => (self.exited(), Self::exit_actions()),
            TrayEvent::QuitNotice => (self.exited(), Self::exit_actions()),
            TrayEvent::BannerNotice => (self, seq![TrayAction::ReaddTrayIcon, TrayAction::ShowBanner(BannerKind::AlreadyRunning)]),
            TrayEvent::TimerTick => (self, seq![TrayAction::SendF15]),
            TrayEvent::LaunchTimerTick => (
                TrayState { launch_timer_running: false, ..self },
                seq![TrayAction::StopLaunchTimer, TrayAction::ShowBanner(BannerKind::Launch)],
            ),
        }
    }

    /// The final state and all actions after a sequence of events.
    pub open spec fn run(self, events: Seq<TrayEvent>) -> (TrayState, Seq<TrayAction>)
        decreases events.len(),
    {
        if events.len() == 0 {
            (self, Seq::empty())
        } else {
            let (next, acts) = self.step(events[0]);
            let (last, rest) = next.run(events.drop_first());
            (last, acts + rest)
        }
    }
}

/// The tray application's decisions: each method is the reaction of the
/// application to one of its events, and returns what it must do.
pub struct NoSleepTray {
    taskbar_created: Option<u32>,
    keep_awake: bool,
    timer_running: bool,
    launch_timer_running: bool,
    dispatching: bool,
}

impl View for NoSleepTray {
    type V = TrayState;

    closed spec fn view(&self) -> TrayState {
        TrayState {
            taskbar_created: self.taskbar_created,
            keep_awake: self.keep_awake,
            timer_running: self.timer_running,
            launch_timer_running: self.launch_timer_running,
            dispatching: self.dispatching,
        }
    }
}

fn one(a: TrayAction) -> (v: Vec<TrayAction>)
    ensures
        v@ == seq![a],
{
    let mut v: Vec<TrayAction> = Vec::new();
    v.push(a);
    assert(v@ =~= seq![a]);
    v
}

fn two(a: TrayAction, b: TrayAction) -> (v: Vec<TrayAction>)
    ensures
        v@ == seq![a, b],
{
    let mut v: Vec<TrayAction> = Vec::new();
    v.push(a);
    v.push(b);
    assert(v@ =~= seq![a, b]);
    v
}

fn three(a: TrayAction, b: TrayAction, c: TrayAction) -> (v: Vec<TrayAction>)
    ensures
        v@ == seq![a, b, c],
{
    let mut v: Vec<TrayAction> = Vec::new();
    v.push(a);
    v.push(b);
    v.push(c);
    assert(v@ =~= seq![a, b, c]);
    v
}

impl Default for NoSleepTray {
    /// The application before it started.
    fn default() -> (tray: NoSleepTray)
        ensures
            tray@ == TrayState::initial(),
    {
        NoSleepTray::new()
    }
}

impl NoSleepTray {
    #[verifier::type_invariant]
    closed spec fn inv(&self) -> bool {
        self@.wf()
    }

    /// The application before it started.
    pub fn new() -> (tray: NoSleepTray)
        ensures
            tray@ == TrayState::initial(),
    {
        NoSleepTray {
            taskbar_created: None,
            keep_awake: false,
            timer_running: false,
            launch_timer_running: false,
            dispatching: false,
        }
    }

    /// Starting the application: keep the machine awake and start tapping F15
    /// at once, and start the timer of the launch balloon.
    pub fn start(&mut self) -> (actions: Vec<TrayAction>)
        ensures
            final(self)@ == old(self)@.started(),
            actions@ == TrayState::start_actions(),
    {
        proof {
            use_type_invariant(&*self);
        }
        self.keep_awake = true;
        self.timer_running = true;
        self.launch_timer_running = true;
        self.dispatching = true;
        three(TrayAction::SetKeepAwake(true), TrayAction::StartTimer, TrayAction::StartLaunchTimer)
    }

    /// The window was created and registering `TaskbarCreated` gave
    /// `taskbar_created`: watch for that message, unless registering failed.
    pub fn on_init(&mut self, taskbar_created: u32) -> (actions: Vec<TrayAction>)
        ensures
            (final(self)@, actions@) == old(self)@.step(TrayEvent::Init(taskbar_created)),
    {
        if taskbar_created == 0 {
            return Vec::new();
        }
        self.taskbar_created = Some(taskbar_created);
        one(TrayAction::WatchTaskbarCreated(taskbar_created))
    }

    /// A raw message reached the window: when it is `TaskbarCreated`, the
    /// shell rebuilt the notification area and dropped every icon, so add the
    /// icon again.
    pub fn on_raw_message(&self, msg: u32) -> (actions: Vec<TrayAction>)
        ensures
            (self@, actions@) == self@.step(TrayEvent::RawMessage(msg)),
    {
        match self.taskbar_created {
            Some(id) => if id == msg {
                one(TrayAction::ReaddTrayIcon)
            } else {
                Vec::new()
            },
            None => Vec::new(),
        }
    }

    /// The F15 timer fired: tap F15.
    pub fn on_tick(&self) -> (actions: Vec<TrayAction>)
        ensures
            (self@, actions@) == self@.step(TrayEvent::TimerTick),
    {
        one(TrayAction::SendF15)
    }

    /// The balloon shown when the app is first launched.
    pub fn show_launch_banner(&self) -> (actions: Vec<TrayAction>)
        ensures
            actions@ == seq![TrayAction::ShowBanner(BannerKind::Launch)],
    {
        one(TrayAction::ShowBanner(BannerKind::Launch))
    }

    /// The one-shot launch timer fired: stop it, then show the launch balloon.
    pub fn on_launch_banner(&mut self) -> (actions: Vec<TrayAction>)
        ensures
            (final(self)@, actions@) == old(self)@.step(TrayEvent::LaunchTimerTick),
    {
        proof {
            use_type_invariant(&*self);
        }
        self.launch_timer_running = false;
        let mut actions = one(TrayAction::StopLaunchTimer);
        let mut banner = self.show_launch_banner();
        actions.append(&mut banner);
        assert(actions@ =~= seq![TrayAction::StopLaunchTimer, TrayAction::ShowBanner(BannerKind::Launch)]);
        actions
    }

    /// A second copy was started: restore the icon first (the balloon is a
    /// change of that icon, and does nothing while it is missing), then show
    /// the "already running" balloon.
    pub fn show_already_running_banner(&self) -> (actions: Vec<TrayAction>)
        ensures
            (self@, actions@) == self@.step(TrayEvent::BannerNotice),
    {
        two(TrayAction::ReaddTrayIcon, TrayAction::ShowBanner(BannerKind::AlreadyRunning))
    }

    /// The tray icon was clicked: pop the menu up.
    pub fn show_menu(&self) -> (actions: Vec<TrayAction>)
        ensures
            (self@, actions@) == self@.step(TrayEvent::TrayContextMenu),
    {
        one(TrayAction::ShowMenu)
    }

    /// Exit: release the keep-awake request, stop the timer and leave the
    /// message loop.
    pub fn exit(&mut self) -> (actions: Vec<TrayAction>)
        ensures
            (final(self)@, actions@) == old(self)@.step(TrayEvent::MenuExit),
    {
        proof {
            use_type_invariant(&*self);
        }
        self.keep_awake = false;
        self.timer_running = false;
        self.dispatching = false;
        three(TrayAction::SetKeepAwake(false), TrayAction::StopTimer, TrayAction::StopDispatch)
    }

    /// Routes an event to the method that reacts to it.
    pub fn handle(&mut self, event: TrayEvent) -> (actions: Vec<TrayAction>)
        ensures
            (final(self)@, actions@) == old(self)@.step(event),
    {
        match event {
            TrayEvent::Init(id) => self.on_init(id),
            TrayEvent::RawMessage(msg) => self.on_raw_message(msg),
            TrayEvent::TrayLeftClick => self.show_menu(),
            TrayEvent::TrayContextMenu => self.show_menu(),
            TrayEvent::MenuExit => self.exit(),
            TrayEvent::QuitNotice => self.exit(),
            TrayEvent::BannerNotice => self.show_already_running_banner(),
            TrayEvent::TimerTick => self.on_tick(),
            TrayEvent::LaunchTimerTick => self.on_launch_banner(),
        }
    }
}

/// Number of launch balloons among `actions`.
pub open spec fn launch_banners(actions: Seq<TrayAction>) -> nat
    decreases actions.len(),
{
    if actions.len() == 0 {
        0
    } else {
        (if actions[0] == TrayAction::ShowBanner(BannerKind::Launch) { 1nat } else { 0nat })
            + launch_banners(actions.drop_first())
    }
}

/// Whether the launch-balloon timer fires, along `events`, only while it runs.
pub open spec fn launch_timer_fires_only_while_running(s: TrayState, events: Seq<TrayEvent>) -> bool
    decreases events.len(),
{
    if events.len() == 0 {
        true
    } else {
        &&& (events[0] == TrayEvent::LaunchTimerTick ==> s.launch_timer_running)
        &&& launch_timer_fires_only_while_running(s.step(events[0]).0, events.drop_first())
    }
}

/// Whether `events` holds neither a menu Exit nor a quit notice.
pub open spec fn no_exit_event(events: Seq<TrayEvent>) -> bool {
    forall|i: int| 0 <= i < events.len() ==> events[i] != TrayEvent::MenuExit && events[i] != TrayEvent::QuitNotice
}

proof fn lemma_launch_banners_concat(a: Seq<TrayAction>, b: Seq<TrayAction>)
    ensures
        launch_banners(a + b) == launch_banners(a) + launch_banners(b),
    decreases a.len(),
{
    if a.len() == 0 {
        assert(a + b =~= b);
    } else {
        assert((a + b).drop_first() =~= a.drop_first() + b);
        lemma_launch_banners_concat(a.drop_first(), b);
    }
}

/// Every event keeps the state well formed: a registered message id is
/// never 0.
pub proof fn lemma_step_keeps_wf(s: TrayState, e: TrayEvent)
    requires
        s.wf(),
    ensures
        s.step(e).0.wf(),
{
}

/// A quit notice from a `--quit` launch shuts the app down exactly as the
/// tray menu's Exit does.
pub proof fn lemma_quit_notice_acts_as_exit(s: TrayState)
    ensures
        s.step(TrayEvent::QuitNotice) == s.step(TrayEvent::MenuExit),
{
}

/// Exit releases the keep-awake request first, stops the F15 timer and ends
/// the message loop.
pub proof fn lemma_exit_releases_keep_awake(s: TrayState)
    ensures
        s.step(TrayEvent::MenuExit).1[0] == TrayAction::SetKeepAwake(false),
        s.step(TrayEvent::MenuExit).1.contains(TrayAction::StopTimer),
        s.step(TrayEvent::MenuExit).1.contains(TrayAction::StopDispatch),
        !s.step(TrayEvent::MenuExit).0.keep_awake,
        !s.step(TrayEvent::MenuExit).0.timer_running,
        !s.step(TrayEvent::MenuExit).0.dispatching,
{
    let acts = s.step(TrayEvent::MenuExit).1;
    assert(acts[1] == TrayAction::StopTimer);
    assert(acts[2] == TrayAction::StopDispatch);
}

/// Left click and context menu on the tray icon both pop the menu up, and
/// change nothing else.
pub proof fn lemma_tray_clicks_show_menu(s: TrayState)
    ensures
        s.step(TrayEvent::TrayLeftClick) == (s, seq![TrayAction::ShowMenu]),
        s.step(TrayEvent::TrayContextMenu) == (s, seq![TrayAction::ShowMenu]),
{
}

/// A second launch always restores the tray icon, before it shows the
/// "already running" balloon, whatever the state: relaunching brings a
/// missing icon back.
pub proof fn lemma_second_launch_restores_icon(s: TrayState)
    ensures
        s.step(TrayEvent::BannerNotice).0 == s,
        s.step(TrayEvent::BannerNotice).1 == seq![TrayAction::ReaddTrayIcon, TrayAction::ShowBanner(BannerKind::AlreadyRunning)],
{
}

/// Once `TaskbarCreated` was registered as a nonzero id, that message re-adds
/// the tray icon and no other message does; if registering gave 0, no message
/// ever re-adds it.
pub proof fn lemma_taskbar_created_restores_icon(s: TrayState, id: u32, msg: u32)
    requires
        s.taskbar_created is None,
    ensures
        s.step(TrayEvent::Init(id)).0.step(TrayEvent::RawMessage(msg)).1
            == (if id != 0 && msg == id { seq![TrayAction::ReaddTrayIcon] } else { Seq::<TrayAction>::empty() }),
{
}

/// Every tick of the F15 timer taps F15, and changes nothing else.
pub proof fn lemma_tick_taps_f15(s: TrayState)
    ensures
        s.step(TrayEvent::TimerTick) == (s, seq![TrayAction::SendF15]),
{
}

/// Once started, the app keeps the machine awake until an Exit or a quit
/// notice: no other sequence of events releases the keep-awake request or
/// stops the F15 timer.
pub proof fn lemma_awake_until_exit(s: TrayState, events: Seq<TrayEvent>)
    requires
        s.keep_awake,
        s.timer_running,
        no_exit_event(events),
    ensures
        s.run(events).0.keep_awake,
        s.run(events).0.timer_running,
        !s.run(events).1.contains(TrayAction::SetKeepAwake(false)),
        !s.run(events).1.contains(TrayAction::StopTimer),
    decreases events.len(),
{
    if events.len() > 0 {
        let rest = events.drop_first();
        assert forall|i: int| 0 <= i < rest.len() implies rest[i] != TrayEvent::MenuExit && rest[i] != TrayEvent::QuitNotice by {
            assert(rest[i] == events[i + 1]);
        }
        let (next, acts) = s.step(events[0]);
        lemma_awake_until_exit(next, rest);
        let all = s.run(events).1;
        assert(all == acts + next.run(rest).1);
        assert(!acts.contains(TrayAction::SetKeepAwake(false)));
        assert(!acts.contains(TrayAction::StopTimer));
        assert forall|i: int| 0 <= i < all.len() implies all[i] != TrayAction::SetKeepAwake(false) && all[i] != TrayAction::StopTimer by {
            if i < acts.len() {
                assert(all[i] == acts[i]);
            } else {
                assert(all[i] == next.run(rest).1[i - acts.len()]);
            }
        }
    }
}

/// The launch balloon is shown at most once: whenever the launch timer fires
/// only while it runs, a run of events shows it at most once if the timer
/// runs at the start, and never otherwise.
pub proof fn lemma_launch_banner_at_most_once(s: TrayState, events: Seq<TrayEvent>)
    requires
        launch_timer_fires_only_while_running(s, events),
    ensures
        launch_banners(s.run(events).1) <= (if s.launch_timer_running { 1nat } else { 0nat }),
    decreases events.len(),
{
    if events.len() > 0 {
        let rest = events.drop_first();
        let (next, acts) = s.step(events[0]);
        lemma_launch_banner_at_most_once(next, rest);
        lemma_launch_banners_concat(acts, next.run(rest).1);
        reveal_with_fuel(launch_banners, 4);
        assert(acts.len() <= 3);
        if acts.len() > 0 {
            assert(acts.drop_first().len() < acts.len());
        }
        if events[0] == TrayEvent::LaunchTimerTick {
            assert(acts.drop_first() =~= seq![TrayAction::ShowBanner(BannerKind::Launch)]);
            assert(acts.drop_first().drop_first() =~= Seq::<TrayAction>::empty());
            assert(launch_banners(acts) == 1);
        } else {
            assert(next.launch_timer_running == s.launch_timer_running);
            assert forall|i: int| 0 <= i < acts.len() implies acts[i] != TrayAction::ShowBanner(BannerKind::Launch) by {}
            lemma_no_launch_banner(acts);
        }
    }
}

proof fn lemma_no_launch_banner(acts: Seq<TrayAction>)
    requires
        forall|i: int| 0 <= i < acts.len() ==> acts[i] != TrayAction::ShowBanner(BannerKind::Launch),
    ensures
        launch_banners(acts) == 0,
    decreases acts.len(),
{
    if acts.len() > 0 {
        let rest = acts.drop_first();
        assert forall|i: int| 0 <= i < rest.len() implies rest[i] != TrayAction::ShowBanner(BannerKind::Launch) by {
            assert(rest[i] == acts[i + 1]);
        }
        lemma_no_launch_banner(rest);
    }
}

/// Whether an action starts or stops something or ends the loop: changes the
/// keep-awake request, a timer, or the message loop.
pub open spec fn is_lifecycle_action(a: TrayAction) -> bool {
    match a {
        TrayAction::SetKeepAwake(_) => true,
        TrayAction::StartTimer => true,
        TrayAction::StopTimer => true,
        TrayAction::StartLaunchTimer => true,
        TrayAction::StopDispatch => true,
        _ => false,
    }
}

/// Starting the application turns the keep-awake request, the F15 timer, the
/// launch timer and the message loop on, in exactly that order of actions,
/// and keeps whatever `TaskbarCreated` id window creation registered, so the
/// icon is still restored after an Explorer restart.
pub proof fn lemma_start_keeps_taskbar_watch(s: TrayState)
    ensures
        s.started().taskbar_created == s.taskbar_created,
        s.started().keep_awake,
        s.started().timer_running,
        s.started().launch_timer_running,
        s.started().dispatching,
        TrayState::start_actions() == seq![TrayAction::SetKeepAwake(true), TrayAction::StartTimer, TrayAction::StartLaunchTimer],
{
}

/// Window creation with a registered (nonzero) `TaskbarCreated` id always
/// asks to watch for that id, in any state, started or not, and records it;
/// with a failed registration (0) it does nothing.
pub proof fn lemma_init_watches_taskbar_created(s: TrayState, id: u32)
    ensures
        id != 0 ==> s.step(TrayEvent::Init(id)).1 == seq![TrayAction::WatchTaskbarCreated(id)],
        id != 0 ==> s.step(TrayEvent::Init(id)).0.taskbar_created == Some(id),
        id == 0 ==> s.step(TrayEvent::Init(id)).1 == Seq::<TrayAction>::empty(),
        id == 0 ==> s.step(TrayEvent::Init(id)).0 == s,
        s.step(TrayEvent::Init(id)).0.keep_awake == s.keep_awake,
        s.step(TrayEvent::Init(id)).0.timer_running == s.timer_running,
        s.step(TrayEvent::Init(id)).0.launch_timer_running == s.launch_timer_running,
        s.step(TrayEvent::Init(id)).0.dispatching == s.dispatching,
{
}

/// Whenever a `TaskbarCreated` id is recorded, that message re-adds the tray
/// icon, in any state.
pub proof fn lemma_recorded_taskbar_created_readds_icon(s: TrayState, id: u32)
    requires
        s.taskbar_created == Some(id),
    ensures
        s.step(TrayEvent::RawMessage(id)) == (s, seq![TrayAction::ReaddTrayIcon]),
{
}

/// Once window creation recorded a `TaskbarCreated` id, starting the app and
/// any later events other than another window creation keep it, so that
/// message still re-adds the icon.
pub proof fn lemma_taskbar_watch_lasts(s: TrayState, id: u32, events: Seq<TrayEvent>)
    requires
        s.taskbar_created == Some(id),
        forall|i: int| 0 <= i < events.len() ==> !(events[i] is Init),
    ensures
        s.started().run(events).0.taskbar_created == Some(id),
        s.started().run(events).0.step(TrayEvent::RawMessage(id)).1 == seq![TrayAction::ReaddTrayIcon],
{
    lemma_run_keeps_taskbar_created(s.started(), id, events);
}

proof fn lemma_run_keeps_taskbar_created(s: TrayState, id: u32, events: Seq<TrayEvent>)
    requires
        s.taskbar_created == Some(id),
        forall|i: int| 0 <= i < events.len() ==> !(events[i] is Init),
    ensures
        s.run(events).0.taskbar_created == Some(id),
    decreases events.len(),
{
    if events.len() > 0 {
        let rest = events.drop_first();
        assert forall|i: int| 0 <= i < rest.len() implies !(rest[i] is Init) by {
            assert(rest[i] == events[i + 1]);
        }
        assert(!(events[0] is Init));
        lemma_run_keeps_taskbar_created(s.step(events[0]).0, id, rest);
    }
}

/// The launch timer firing, in any state, stops that one-shot timer and then
/// shows the launch balloon, and changes nothing else.
pub proof fn lemma_launch_tick_stops_timer_then_shows_banner(s: TrayState)
    ensures
        s.step(TrayEvent::LaunchTimerTick).1 == seq![TrayAction::StopLaunchTimer, TrayAction::ShowBanner(BannerKind::Launch)],
        s.step(TrayEvent::LaunchTimerTick).0 == (TrayState { launch_timer_running: false, ..s }),
{
}

/// Exit, in any state, releases the keep-awake request, stops the F15 timer
/// and ends the message loop, in that order, and changes nothing else.
pub proof fn lemma_exit_actions(s: TrayState)
    ensures
        s.step(TrayEvent::MenuExit).1 == seq![TrayAction::SetKeepAwake(false), TrayAction::StopTimer, TrayAction::StopDispatch],
        s.step(TrayEvent::MenuExit).0 == (TrayState { keep_awake: false, timer_running: false, dispatching: false, ..s }),
{
}

/// Only an Exit or a quit notice touches the app's life cycle: any other
/// event, in any state, neither starts nor stops the keep-awake request, a
/// timer or the message loop (the launch timer excepted, which only its own
/// tick stops), and leaves those flags as they were.
pub proof fn lemma_only_exit_ends_the_app(s: TrayState, e: TrayEvent)
    requires
        e != TrayEvent::MenuExit,
        e != TrayEvent::QuitNotice,
    ensures
        forall|i: int| 0 <= i < s.step(e).1.len() ==> !is_lifecycle_action(#[trigger] s.step(e).1[i]),
        !s.step(e).1.contains(TrayAction::StopDispatch),
        !s.step(e).1.contains(TrayAction::StartLaunchTimer),
        s.step(e).0.keep_awake == s.keep_awake,
        s.step(e).0.timer_running == s.timer_running,
        s.step(e).0.dispatching == s.dispatching,
        s.step(e).0.launch_timer_running == (s.launch_timer_running && e != TrayEvent::LaunchTimerTick),
{
    let acts = s.step(e).1;
    assert(acts.len() <= 2);
    assert forall|i: int| 0 <= i < acts.len() implies !is_lifecycle_action(#[trigger] acts[i]) by {}
    assert(is_lifecycle_action(TrayAction::StopDispatch));
    assert(is_lifecycle_action(TrayAction::StartLaunchTimer));
}

/// Once started, the app runs until an Exit or a quit notice: no other
/// sequence of events ends the message loop, releases the keep-awake request
/// or stops the F15 timer.
pub proof fn lemma_running_until_exit(s: TrayState, events: Seq<TrayEvent>)
    requires
        no_exit_event(events),
    ensures
        s.run(events).0.keep_awake == s.keep_awake,
        s.run(events).0.timer_running == s.timer_running,
        s.run(events).0.dispatching == s.dispatching,
        forall|i: int| 0 <= i < s.run(events).1.len() ==> !is_lifecycle_action(#[trigger] s.run(events).1[i]),
    decreases events.len(),
{
    if events.len() > 0 {
        let rest = events.drop_first();
        assert forall|i: int| 0 <= i < rest.len() implies rest[i] != TrayEvent::MenuExit && rest[i] != TrayEvent::QuitNotice by {
            assert(rest[i] == events[i + 1]);
        }
        let (next, acts) = s.step(events[0]);
        lemma_only_exit_ends_the_app(s, events[0]);
        lemma_running_until_exit(next, rest);
        let tail = next.run(rest).1;
        let all = s.run(events).1;
        assert(all == acts + tail);
        assert forall|i: int| 0 <= i < all.len() implies !is_lifecycle_action(#[trigger] all[i]) by {
            if i < acts.len() {
                assert(all[i] == acts[i]);
            } else {
                assert(all[i] == tail[i - acts.len()]);
            }
        }
    }
}

} // verus!
