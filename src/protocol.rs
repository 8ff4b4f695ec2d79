//! How a relay index maps onto registers and write codes.
use vstd::prelude::*;

verus! {

/// Number of relays on the board.
pub const N_RELAYS: usize = 16;

/// Serial line speed of the board.
pub const BAUDRATE: u32 = 9600;

/// Pause after each single write, in milliseconds.
pub const DELAY_AFTER_OPERATION: u64 = 5;

/// Seconds allowed for opening the serial link.
pub const CONNECT_TIMEOUT_SECS: u64 = 1;

/// Seconds allowed for one register read or write.
pub const OPERATION_TIMEOUT_SECS: u64 = 2;

/// Code written to a relay's register to switch it on.
pub const RELAY_CMD_ON: u16 = 0x0100;

/// Code written to a relay's register to switch it off.
pub const RELAY_CMD_OFF: u16 = 0x0200;

/// Register of the first relay; register 0 is not used.
pub const FIRST_REGISTER: u16 = 1;

/// The code that drives a relay to `on`.
pub open spec fn command_spec(on: bool) -> u16 {
    if on {
        RELAY_CMD_ON
    } else {
        RELAY_CMD_OFF
    }
}

/// A register value read back from the board means "on" exactly when it is 1.
pub open spec fn reads_on(value: u16) -> bool {
    value == 1
}

/// The write code for switching a relay on or off.
pub fn relay_command(on: bool) -> (r: u16)
    ensures
        r == command_spec(on),
{
    if on {
        RELAY_CMD_ON
    } else {
        RELAY_CMD_OFF
    }
}

/// The register that holds relay `relay` (counted from 0).
pub fn register_address(relay: usize) -> (r: u16)
    requires
        relay < u16::MAX,
    ensures
        r == relay + 1,
{
    relay as u16 + 1
}

/// Turns the registers read from the board into relay states, one per register.
pub fn states_from_registers(regs: &[u16]) -> (r: Vec<bool>)
    ensures
        r@ == regs@.map_values(|v: u16| reads_on(v)),
{
    let mut r: Vec<bool> = Vec::new();
    let mut i: usize = 0;
    while i < regs.len()
        invariant
            i <= regs@.len(),
            r@ == regs@.take(i as int).map_values(|v: u16| reads_on(v)),
        decreases regs@.len() - i,
    {
        r.push(regs[i] == 1);
        i += 1;
        assert(regs@.take(i as int) =~= regs@.take(i - 1).push(regs@[i - 1]));
    }
    assert(regs@.take(i as int) =~= regs@);
    r
}

} // verus!
