//! From a byte and a mode flag to the GPIO values that strobe it into the LCD.
use vstd::prelude::*;
use crate::layout::{BACKLIGHT, ENABLE, REGISTER_SELECT, rs_bits};

verus! {

/// Bits 7 to 4 of `byte`, moved onto the data lines (bits 6 to 3).
pub open spec fn upper_field(byte: u8) -> u8 {
    (byte & 0xF0) >> 1
}

/// Bits 3 to 0 of `byte`, moved onto the data lines (bits 6 to 3).
pub open spec fn lower_field(byte: u8) -> u8 {
    (byte & 0x0F) << 3
}

/// The GPIO value that presents `field` with the given mode, enable low.
pub open spec fn nibble_value(field: u8, data: bool) -> u8 {
    field | rs_bits(data) | BACKLIGHT
}

/// The four GPIO values of one byte write, in the order they go out:
/// upper nibble with enable high, then low, then the lower nibble the same way.
pub open spec fn gpio_values(byte: u8, data: bool) -> Seq<u8> {
    seq![
        nibble_value(upper_field(byte), data) | ENABLE,
        nibble_value(upper_field(byte), data),
        nibble_value(lower_field(byte), data) | ENABLE,
        nibble_value(lower_field(byte), data),
    ]
}

/// The register-select bits for a data (`true`) or command (`false`) transfer.
pub fn register_select(data: bool) -> (r: u8)
    ensures
        r == rs_bits(data),
{
    if data { REGISTER_SELECT } else { 0 }
}

/// The upper nibble of `byte`, placed on the data lines.
pub fn upper_nibble(byte: u8) -> (r: u8)
    ensures
        r == upper_field(byte),
{
    (byte & 0xF0) >> 1
}

/// The lower nibble of `byte`, placed on the data lines.
pub fn lower_nibble(byte: u8) -> (r: u8)
    ensures
        r == lower_field(byte),
{
    (byte & 0x0F) << 3
}

/// The GPIO value that presents `nibble` (already on the data lines) in the
/// given mode with the backlight on and enable low.
pub fn nibble_bits(nibble: u8, data: bool) -> (r: u8)
    ensures
        r == nibble_value(nibble, data),
{
    nibble | register_select(data) | BACKLIGHT
}

/// The GPIO value at position `index` of the write of `byte`.
pub fn gpio_value(byte: u8, data: bool, index: usize) -> (r: u8)
    requires
        index < 4,
    ensures
        r == gpio_values(byte, data)[index as int],
{
    let field = if index < 2 { upper_nibble(byte) } else { lower_nibble(byte) };
    let value = nibble_bits(field, data);
    if index % 2 == 0 { value | ENABLE } else { value }
}

/// The four GPIO values of the write of `byte`, in the order they go out.
pub fn byte_gpio_values(byte: u8, data: bool) -> (r: Vec<u8>)
    ensures
        r@ == gpio_values(byte, data),
{
    let upper = nibble_bits(upper_nibble(byte), data);
    let lower = nibble_bits(lower_nibble(byte), data);
    let r = vec![upper | ENABLE, upper, lower | ENABLE, lower];
    assert(r@ =~= gpio_values(byte, data));
    r
}

} // verus!
