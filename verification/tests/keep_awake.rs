use no_sleep_till_brooklyn::keep_awake::{keep_awake_flags, ES_CONTINUOUS, ES_DISPLAY_REQUIRED, ES_SYSTEM_REQUIRED};
use no_sleep_till_brooklyn::key_input::{send_f15_inputs, KeyInput, KEYEVENTF_KEYUP, VK_F15};
use no_sleep_till_brooklyn::monitor::{monitor_off_message, SysCommandMessage, MONITOR_POWER_OFF, SC_MONITORPOWER, WM_SYSCOMMAND};

#[test]
fn enabling_blocks_sleep_and_display_off() {
    assert_eq!(keep_awake_flags(true), 0x8000_0003);
    assert_eq!(keep_awake_flags(true), ES_CONTINUOUS | ES_SYSTEM_REQUIRED | ES_DISPLAY_REQUIRED);
}

#[test]
fn releasing_leaves_continuous_alone() {
    assert_eq!(keep_awake_flags(false), 0x8000_0000);
    assert_eq!(keep_awake_flags(false), ES_CONTINUOUS);
}

#[test]
fn f15_tap_is_press_then_release() {
    let inputs = send_f15_inputs();
    assert_eq!(VK_F15, 0x7E);
    assert_eq!(
        inputs,
        vec![
            KeyInput { vk: 0x7E, scan: 0, flags: 0, time: 0, extra_info: 0 },
            KeyInput { vk: 0x7E, scan: 0, flags: KEYEVENTF_KEYUP, time: 0, extra_info: 0 },
        ]
    );
    assert_eq!(KEYEVENTF_KEYUP, 2);
}

#[test]
fn monitor_off_is_sc_monitorpower_with_two() {
    let m = monitor_off_message();
    assert_eq!(m, SysCommandMessage { msg: 0x0112, wparam: 0xF170, lparam: 2 });
    assert_eq!((m.msg, m.wparam, m.lparam), (WM_SYSCOMMAND, SC_MONITORPOWER, MONITOR_POWER_OFF));
}
