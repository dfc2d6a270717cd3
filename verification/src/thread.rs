use vstd::prelude::*;

verus! {

/// `dwCreationFlags` value: the thread is created suspended.
pub const CREATE_SUSPENDED: u32 = 0x4;

/// `dwCreationFlags` value: `dwStackSize` is the reserve size of the stack.
pub const STACK_SIZE_PARAM_IS_A_RESERVATION: u32 = 0x10000;

/// The name under which a `dwCreationFlags` value of `CreateThread` is
/// reported. Only the documented single values are named; any other value,
/// combinations included, is "Unknown".
pub open spec fn spec_creation_flag_name(flags: u32) -> Seq<char> {
    if flags == 0 {
        "0"@
    } else if flags == CREATE_SUSPENDED {
        "CREATE_SUSPENDED"@
    } else if flags == STACK_SIZE_PARAM_IS_A_RESERVATION {
        "STACK_SIZE_PARAM_IS_A_RESERVATION"@
    } else {
        "Unknown"@
    }
}

/// The name under which a `dwCreationFlags` value of `CreateThread` is reported.
pub fn creation_flag_name(flags: u32) -> (name: &'static str)
    ensures
        name@ == spec_creation_flag_name(flags),
{
    if flags == 0 {
        "0"
    } else if flags == CREATE_SUSPENDED {
        "CREATE_SUSPENDED"
    } else if flags == STACK_SIZE_PARAM_IS_A_RESERVATION {
        "STACK_SIZE_PARAM_IS_A_RESERVATION"
    } else {
        "Unknown"
    }
}

} // verus!
