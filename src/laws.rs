//! What holds of every byte write and of every initialisation.
use vstd::prelude::*;
use crate::encode::{gpio_values, lower_field, upper_field};
use crate::init::{init_schedule, Initialization};
use crate::layout::{
    data_lines, rs_bits, ALL_OUTPUTS, BACKLIGHT, ENABLE, IDLE_OUTPUT, MCP23008_GPIO,
    MCP23008_IODIR, SETTLE_MICROS,
};
use crate::transfer::{byte_schedule, gpio_write, settle, Action, BYTE_STEPS};

verus! {

/// The write of `byte` sends exactly four GPIO values, each fixed by `byte` and
/// `data` alone: `(byte & 0xF0) >> 1` and then `(byte & 0x0F) << 3` on the data
/// lines, each first with enable high and then with it low, always with the
/// register-select bits of the mode and the backlight bit.
pub proof fn lemma_gpio_sequence(byte: u8, data: bool)
    ensures
        ({
            let rs: u8 = if data { 0x02 } else { 0x00 };
            gpio_values(byte, data) == seq![
                ((byte & 0xF0) >> 1) | rs | 0x80 | 0x04,
                ((byte & 0xF0) >> 1) | rs | 0x80,
                ((byte & 0x0F) << 3) | rs | 0x80 | 0x04,
                ((byte & 0x0F) << 3) | rs | 0x80,
            ]
        }),
        byte_schedule(byte, data).len() == 8,
        forall|k: int|
            0 <= k < 4 ==> #[trigger] byte_schedule(byte, data)[2 * k] == gpio_write(
                gpio_values(byte, data)[k],
            ),
        forall|i: int|
            0 <= i < 8 ==> (#[trigger] byte_schedule(byte, data)[i] is Write <==> i % 2 == 0),
{
    assert forall|k: int| 0 <= k < 4 implies #[trigger] byte_schedule(byte, data)[2 * k]
        == gpio_write(gpio_values(byte, data)[k]) by {
        assert((2 * k) / 2 == k);
    }
}

/// The upper nibble goes out before the lower one: the GPIO writes in the first
/// half of the schedule carry bits 7 to 4 of the byte on the data lines, those
/// in the second half bits 3 to 0.
pub proof fn lemma_upper_nibble_first(byte: u8, data: bool)
    ensures
        forall|i: int|
            0 <= i < 8 && #[trigger] byte_schedule(byte, data)[i] is Write ==> data_lines(
                byte_schedule(byte, data)[i]->value,
            ) == if i < 4 {
                byte >> 4
            } else {
                byte & 0x0F
            },
{
    let v = gpio_values(byte, data);
    let rs = rs_bits(data);
    assert(rs == 0 || rs == 2);
    assert(data_lines(((byte & 0xF0) >> 1) | rs | 0x80 | 0x04) == byte >> 4) by (bit_vector)
        requires
            rs == 0 || rs == 2,
    ;
    assert(data_lines(((byte & 0xF0) >> 1) | rs | 0x80) == byte >> 4) by (bit_vector)
        requires
            rs == 0 || rs == 2,
    ;
    assert(data_lines(((byte & 0x0F) << 3) | rs | 0x80 | 0x04) == byte & 0x0F) by (bit_vector)
        requires
            rs == 0 || rs == 2,
    ;
    assert(data_lines(((byte & 0x0F) << 3) | rs | 0x80) == byte & 0x0F) by (bit_vector)
        requires
            rs == 0 || rs == 2,
    ;
    assert forall|i: int|
        0 <= i < 8 && #[trigger] byte_schedule(byte, data)[i] is Write implies data_lines(
            byte_schedule(byte, data)[i]->value,
        ) == if i < 4 {
            byte >> 4
        } else {
            byte & 0x0F
        } by {
        assert(i % 2 == 0);
        assert(byte_schedule(byte, data)[i]->value == v[i / 2]);
    }
}

/// Enable is high in the first and third GPIO values and low in the second and
/// fourth; within each nibble nothing but enable changes, so data and
/// register-select hold steady around the strobe.
pub proof fn lemma_enable_strobe(byte: u8, data: bool)
    ensures
        gpio_values(byte, data)[0] & ENABLE == ENABLE,
        gpio_values(byte, data)[1] & ENABLE == 0,
        gpio_values(byte, data)[2] & ENABLE == ENABLE,
        gpio_values(byte, data)[3] & ENABLE == 0,
        gpio_values(byte, data)[0] ^ gpio_values(byte, data)[1] == ENABLE,
        gpio_values(byte, data)[2] ^ gpio_values(byte, data)[3] == ENABLE,
{
    let rs = rs_bits(data);
    let u = upper_field(byte);
    let l = lower_field(byte);
    assert(rs == 0 || rs == 2);
    assert(u == (byte & 0xF0) >> 1 && l == (byte & 0x0F) << 3);
    assert(((u | rs | 0x80) | 0x04) & 0x04 == 0x04 && (u | rs | 0x80) & 0x04 == 0 && ((u | rs
        | 0x80) | 0x04) ^ (u | rs | 0x80) == 0x04) by (bit_vector)
        requires
            rs == 0 || rs == 2,
            u == (byte & 0xF0) >> 1,
    ;
    assert(((l | rs | 0x80) | 0x04) & 0x04 == 0x04 && (l | rs | 0x80) & 0x04 == 0 && ((l | rs
        | 0x80) | 0x04) ^ (l | rs | 0x80) == 0x04) by (bit_vector)
        requires
            rs == 0 || rs == 2,
            l == (byte & 0x0F) << 3,
    ;
}

/// The backlight bit is set in every GPIO value of every byte write, and in the
/// idle state that initialisation leaves.
pub proof fn lemma_backlight_always_on(byte: u8, data: bool)
    ensures
        forall|k: int| 0 <= k < 4 ==> #[trigger] gpio_values(byte, data)[k] & BACKLIGHT == BACKLIGHT,
        IDLE_OUTPUT & BACKLIGHT == BACKLIGHT,
{
    let rs = rs_bits(data);
    let u = upper_field(byte);
    let l = lower_field(byte);
    assert((u | rs | 0x80) & 0x80 == 0x80 && ((u | rs | 0x80) | 0x04) & 0x80 == 0x80
        && (l | rs | 0x80) & 0x80 == 0x80 && ((l | rs | 0x80) | 0x04) & 0x80 == 0x80)
        by (bit_vector);
    assert(0x80u8 & 0x80u8 == 0x80u8) by (bit_vector);
}

/// Every GPIO write of a byte write is followed at once by the settle delay,
/// so a byte write waits four times, each time `SETTLE_MICROS` (at least the
/// 30 microseconds of the controller's enable pulse).
pub proof fn lemma_settle_after_every_write(byte: u8, data: bool)
    ensures
        byte_schedule(byte, data).len() == BYTE_STEPS,
        BYTE_STEPS == 8,
        SETTLE_MICROS >= 30,
        forall|i: int|
            0 <= i < 8 && #[trigger] byte_schedule(byte, data)[i] is Write ==> i + 1 < 8
                && byte_schedule(byte, data)[i + 1] == settle(),
        forall|i: int|
            0 <= i < 8 && #[trigger] byte_schedule(byte, data)[i] is Wait ==> byte_schedule(
                byte,
                data,
            )[i] == settle(),
        forall|i: int| 0 <= i < 8 ==> (#[trigger] byte_schedule(byte, data)[i] is Wait <==> i % 2 == 1),
{
}

/// Initialisation depends on nothing that came before it: two initialisations
/// at the same step hand out the same action, and from a fresh start both send
/// the direction write (all outputs) and then the idle GPIO state.
pub proof fn lemma_init_repeatable(first: Initialization, second: Initialization)
    requires
        first.position() == second.position(),
    ensures
        first.current() == second.current(),
        init_schedule() == seq![
            Action::Write { register: MCP23008_IODIR, value: ALL_OUTPUTS },
            Action::Write { register: MCP23008_GPIO, value: IDLE_OUTPUT },
        ],
{
}

} // verus!
