use no_sleep_till_brooklyn::tray::{
    banner_text, tray_tip, BannerKind, NoSleepTray, TrayAction, TrayEvent, KEYPRESS_INTERVAL_SECS,
    LAUNCH_BANNER_DELAY_MS,
};

fn started() -> NoSleepTray {
    let mut tray = NoSleepTray::new();
    let actions = tray.start();
    assert_eq!(
        actions,
        vec![TrayAction::SetKeepAwake(true), TrayAction::StartTimer, TrayAction::StartLaunchTimer]
    );
    tray
}

#[test]
fn timings_are_as_documented() {
    assert_eq!(KEYPRESS_INTERVAL_SECS, 59);
    assert_eq!(LAUNCH_BANNER_DELAY_MS, 300);
}

#[test]
fn texts_are_as_documented() {
    assert_eq!(tray_tip(), "No Sleep Till Brooklyn");
    assert_eq!(banner_text(BannerKind::Launch), "Keeping this PC awake. Right-click the tray icon to exit.");
    assert_eq!(
        banner_text(BannerKind::AlreadyRunning),
        "Already running \u{2014} no second copy started. Right-click the tray icon to exit."
    );
}

#[test]
fn start_enables_keep_awake_and_timers() {
    let _ = started();
}

#[test]
fn init_watches_taskbar_created_and_it_readds_icon() {
    let mut tray = started();
    assert_eq!(tray.handle(TrayEvent::Init(0xC0DE)), vec![TrayAction::WatchTaskbarCreated(0xC0DE)]);
    assert_eq!(tray.handle(TrayEvent::RawMessage(0xC0DE)), vec![TrayAction::ReaddTrayIcon]);
    assert_eq!(tray.on_raw_message(0xC0DE), vec![TrayAction::ReaddTrayIcon]);
    assert_eq!(tray.handle(TrayEvent::RawMessage(0x0010)), Vec::<TrayAction>::new());
}

#[test]
fn failed_registration_watches_nothing() {
    let mut tray = started();
    assert_eq!(tray.on_init(0), Vec::<TrayAction>::new());
    assert_eq!(tray.handle(TrayEvent::RawMessage(0)), Vec::<TrayAction>::new());
    assert_eq!(tray.handle(TrayEvent::RawMessage(0xC0DE)), Vec::<TrayAction>::new());
}

#[test]
fn timer_tick_taps_f15() {
    let mut tray = started();
    assert_eq!(tray.handle(TrayEvent::TimerTick), vec![TrayAction::SendF15]);
    assert_eq!(tray.on_tick(), vec![TrayAction::SendF15]);
}

#[test]
fn launch_banner_stops_its_timer_then_shows() {
    let mut tray = started();
    assert_eq!(
        tray.handle(TrayEvent::LaunchTimerTick),
        vec![TrayAction::StopLaunchTimer, TrayAction::ShowBanner(BannerKind::Launch)]
    );
    assert_eq!(tray.show_launch_banner(), vec![TrayAction::ShowBanner(BannerKind::Launch)]);
}

#[test]
fn second_launch_readds_icon_before_balloon() {
    let mut tray = started();
    let expected = vec![TrayAction::ReaddTrayIcon, TrayAction::ShowBanner(BannerKind::AlreadyRunning)];
    assert_eq!(tray.handle(TrayEvent::BannerNotice), expected);
    assert_eq!(tray.show_already_running_banner(), expected);
}

#[test]
fn clicks_show_menu() {
    let mut tray = started();
    assert_eq!(tray.handle(TrayEvent::TrayLeftClick), vec![TrayAction::ShowMenu]);
    assert_eq!(tray.handle(TrayEvent::TrayContextMenu), vec![TrayAction::ShowMenu]);
    assert_eq!(tray.show_menu(), vec![TrayAction::ShowMenu]);
}

#[test]
fn menu_exit_releases_keep_awake() {
    let mut tray = started();
    assert_eq!(
        tray.handle(TrayEvent::MenuExit),
        vec![TrayAction::SetKeepAwake(false), TrayAction::StopTimer, TrayAction::StopDispatch]
    );
}

#[test]
fn quit_notice_acts_as_exit() {
    let mut a = started();
    let mut b = started();
    assert_eq!(a.handle(TrayEvent::QuitNotice), b.handle(TrayEvent::MenuExit));
    assert_eq!(a.exit(), vec![TrayAction::SetKeepAwake(false), TrayAction::StopTimer, TrayAction::StopDispatch]);
}

#[test]
fn ordinary_session_shows_launch_banner_once_and_never_releases_before_exit() {
    let mut tray = started();
    let events = [
        TrayEvent::Init(49_000),
        TrayEvent::LaunchTimerTick,
        TrayEvent::TimerTick,
        TrayEvent::BannerNotice,
        TrayEvent::RawMessage(49_000),
        TrayEvent::TrayContextMenu,
        TrayEvent::TimerTick,
    ];
    let mut all = Vec::new();
    for e in events {
        all.extend(tray.handle(e));
    }
    let launch_banners = all.iter().filter(|a| **a == TrayAction::ShowBanner(BannerKind::Launch)).count();
    assert_eq!(launch_banners, 1);
    assert!(!all.contains(&TrayAction::SetKeepAwake(false)));
    assert!(!all.contains(&TrayAction::StopTimer));
    assert_eq!(all.iter().filter(|a| **a == TrayAction::SendF15).count(), 2);
    assert_eq!(all.iter().filter(|a| **a == TrayAction::ReaddTrayIcon).count(), 2);
}
