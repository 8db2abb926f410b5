//! The expander's register addresses and the wiring of its GPIO port to the LCD.
//!
//! ```text
//!  7   6   5   4   3   2   1   0
//! LT  D7  D6  D5  D4  EN  RS  n/c
//! ```
use vstd::prelude::*;

verus! {

/// Backlight on (bit 7).
pub const BACKLIGHT: u8 = 0x80;

/// LCD enable / strobe line (bit 2); the controller latches on its falling edge.
pub const ENABLE: u8 = 0x04;

/// LCD register-select line (bit 1): set for display data, clear for a command.
pub const REGISTER_SELECT: u8 = 0x02;

/// The four LCD data lines D7..D4 (bits 6 to 3).
pub const DATA_MASK: u8 = 0x78;

/// Address of the expander's I/O direction register.
pub const MCP23008_IODIR: u8 = 0x00;

/// Address of the expander's GPIO port register.
pub const MCP23008_GPIO: u8 = 0x09;

/// Direction-register value that makes every pin an output.
pub const ALL_OUTPUTS: u8 = 0x00;

/// GPIO value between transfers: backlight on, enable low, data and RS low.
pub const IDLE_OUTPUT: u8 = BACKLIGHT;

/// Settle time after every GPIO write, in microseconds; at least the
/// controller's minimum enable-pulse width.
pub const SETTLE_MICROS: u16 = 30;

/// The register-select bits for a data (`true`) or command (`false`) transfer.
pub open spec fn rs_bits(data: bool) -> u8 {
    if data { REGISTER_SELECT } else { 0 }
}

/// The four data lines of a GPIO value, as a nibble.
pub open spec fn data_lines(value: u8) -> u8 {
    (value & DATA_MASK) >> 3
}

} // verus!
