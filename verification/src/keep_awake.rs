use vstd::prelude::*;

verus! {

/// Execution-state flag: the request stays in force until it is changed.
pub const ES_CONTINUOUS: u32 = 0x8000_0000;

/// Execution-state flag: the system must not go to sleep.
pub const ES_SYSTEM_REQUIRED: u32 = 0x0000_0001;

/// Execution-state flag: the display must stay on.
pub const ES_DISPLAY_REQUIRED: u32 = 0x0000_0002;

/// The execution-state flags that enable (`true`) or release (`false`) the
/// keep-awake request: all three flags to block both sleep and display
/// power-off, `ES_CONTINUOUS` alone to release the request.
pub open spec fn keep_awake_flags_spec(enable: bool) -> u32 {
    if enable {
        0x8000_0003
    } else {
        0x8000_0000
    }
}

/// The flags handed to the system's thread-execution-state call.
pub fn keep_awake_flags(enable: bool) -> (flags: u32)
    ensures
        flags == keep_awake_flags_spec(enable),
        flags & ES_CONTINUOUS == ES_CONTINUOUS,
        (flags & ES_SYSTEM_REQUIRED == ES_SYSTEM_REQUIRED) == enable,
        (flags & ES_DISPLAY_REQUIRED == ES_DISPLAY_REQUIRED) == enable,
        flags & !(ES_CONTINUOUS | ES_SYSTEM_REQUIRED | ES_DISPLAY_REQUIRED) == 0,
{
    let flags = if enable {
        ES_CONTINUOUS | ES_SYSTEM_REQUIRED | ES_DISPLAY_REQUIRED
    } else {
        ES_CONTINUOUS
    };
    assert(0x8000_0000u32 | 0x1u32 | 0x2u32 == 0x8000_0003u32) by (bit_vector);
    assert(0x8000_0003u32 & 0x8000_0000u32 == 0x8000_0000u32) by (bit_vector);
    assert(0x8000_0003u32 & 0x1u32 == 0x1u32) by (bit_vector);
    assert(0x8000_0003u32 & 0x2u32 == 0x2u32) by (bit_vector);
    assert(0x8000_0000u32 & 0x8000_0000u32 == 0x8000_0000u32) by (bit_vector);
    assert(0x8000_0000u32 & 0x1u32 == 0u32) by (bit_vector);
    assert(0x8000_0000u32 & 0x2u32 == 0u32) by (bit_vector);
    assert(0x8000_0003u32 & !0x8000_0003u32 == 0u32) by (bit_vector);
    assert(0x8000_0000u32 & !0x8000_0003u32 == 0u32) by (bit_vector);
    flags
}

} // verus!
