use vstd::prelude::*;

verus! {

/// Virtual-key code of F15, a key that virtually no application reacts to.
pub const VK_F15: u16 = 0x7E;

/// Keyboard-event flag marking a key release.
pub const KEYEVENTF_KEYUP: u32 = 0x0002;

/// One synthesized keyboard event, as the system's input call takes it.
#[derive(Clone, Copy, Debug, PartialEq, Eq, Structural)]
pub struct KeyInput {
    /// Virtual-key code.
    pub vk: u16,
    /// Hardware scan code (unused: 0).
    pub scan: u16,
    /// Event flags: 0 for a press, `KEYEVENTF_KEYUP` for a release.
    pub flags: u32,
    /// Time stamp (0: the system supplies one).
    pub time: u32,
    /// Extra information attached to the event.
    pub extra_info: usize,
}

/// A press of key `vk`, with every other field zero.
pub open spec fn key_down(vk: u16) -> KeyInput {
    KeyInput { vk, scan: 0, flags: 0, time: 0, extra_info: 0 }
}

/// A release of key `vk`, with every other field zero.
pub open spec fn key_up(vk: u16) -> KeyInput {
    KeyInput { vk, scan: 0, flags: KEYEVENTF_KEYUP, time: 0, extra_info: 0 }
}

/// The two events of one F15 tap: F15 pressed, then F15 released, so that
/// the idle timer is reset and no key is left held down.
pub fn send_f15_inputs() -> (inputs: Vec<KeyInput>)
    ensures
        inputs@ == seq![key_down(VK_F15), key_up(VK_F15)],
{
    let mut inputs: Vec<KeyInput> = Vec::new();
    inputs.push(KeyInput { vk: VK_F15, scan: 0, flags: 0, time: 0, extra_info: 0 });
    inputs.push(KeyInput { vk: VK_F15, scan: 0, flags: KEYEVENTF_KEYUP, time: 0, extra_info: 0 });
    assert(inputs@ =~= seq![key_down(VK_F15), key_up(VK_F15)]);
    inputs
}

} // verus!
