use vstd::prelude::*;

verus! {

/// Window message carrying a system command.
pub const WM_SYSCOMMAND: u32 = 0x0112;

/// System command that sets the power state of the display.
pub const SC_MONITORPOWER: usize = 0xF170;

/// `SC_MONITORPOWER` argument that switches the display off (`1` would be
/// low power, `-1` powers the display back on).
pub const MONITOR_POWER_OFF: isize = 2;

/// A message to broadcast to every top-level window.
#[derive(Clone, Copy, Debug, PartialEq, Eq, Structural)]
pub struct SysCommandMessage {
    pub msg: u32,
    pub wparam: usize,
    pub lparam: isize,
}

/// The broadcast that switches the display off, the way the classic
/// "monitor off" desktop shortcut does it.
pub fn monitor_off_message() -> (m: SysCommandMessage)
    ensures
        m == (SysCommandMessage { msg: WM_SYSCOMMAND, wparam: SC_MONITORPOWER, lparam: MONITOR_POWER_OFF }),
{
    SysCommandMessage { msg: WM_SYSCOMMAND, wparam: SC_MONITORPOWER, lparam: MONITOR_POWER_OFF }
}

} // verus!
