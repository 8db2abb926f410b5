use lcd_expander::encode::{byte_gpio_values, gpio_value, lower_nibble, nibble_bits, register_select, upper_nibble};
use lcd_expander::error::{BusWriteError, Phase};
use lcd_expander::layout::{BACKLIGHT, ENABLE, MCP23008_GPIO, SETTLE_MICROS};
use lcd_expander::transfer::{phase_of, Action, ByteWrite};

#[derive(Debug, PartialEq, Eq)]
enum Seen {
    Write(u8, u8),
    Wait(u16),
}

/// Runs one byte write against a transport that refuses its `fail_at`-th
/// transaction (counting from 1), recording every transaction it is offered
/// and every delay.
fn run(byte: u8, data: bool, fail_at: Option<usize>) -> (Vec<Seen>, Result<(), BusWriteError<&'static str>>) {
    let mut seen = Vec::new();
    let mut machine = ByteWrite::new(byte, data);
    let mut action = machine.action();
    let mut writes = 0usize;
    loop {
        let outcome = match action {
            Action::Write { register, value } => {
                seen.push(Seen::Write(register, value));
                writes += 1;
                if Some(writes) == fail_at { Err("nack") } else { Ok(()) }
            }
            Action::Wait { micros } => {
                seen.push(Seen::Wait(micros));
                Ok(())
            }
            Action::Finished => return (seen, Ok(())),
        };
        match machine.on_event(outcome) {
            Ok(next) => action = next,
            Err(e) => return (seen, Err(e)),
        }
    }
}

fn gpio_bytes(seen: &[Seen]) -> Vec<u8> {
    seen.iter()
        .filter_map(|s| match s {
            Seen::Write(register, value) => {
                assert_eq!(*register, MCP23008_GPIO);
                Some(*value)
            }
            Seen::Wait(_) => None,
        })
        .collect()
}

fn formula(b: u8, m: bool) -> Vec<u8> {
    let rs = if m { 0x02 } else { 0x00 };
    vec![
        (b & 0xF0) >> 1 | rs | 0x80 | 0x04,
        (b & 0xF0) >> 1 | rs | 0x80,
        (b & 0x0F) << 3 | rs | 0x80 | 0x04,
        (b & 0x0F) << 3 | rs | 0x80,
    ]
}

#[test]
fn write_a5_as_data() {
    let (seen, result) = run(0xA5, true, None);
    assert_eq!(result, Ok(()));
    assert_eq!(gpio_bytes(&seen), vec![0xD6, 0xD2, 0xAE, 0xAA]);
    assert_eq!(byte_gpio_values(0xA5, true), vec![0xD6, 0xD2, 0xAE, 0xAA]);
}

#[test]
fn write_zero_as_command() {
    let (seen, result) = run(0x00, false, None);
    assert_eq!(result, Ok(()));
    assert_eq!(gpio_bytes(&seen), vec![0x84, 0x80, 0x84, 0x80]);
    assert_eq!(byte_gpio_values(0x00, false), vec![0x84, 0x80, 0x84, 0x80]);
}

#[test]
fn write_ff_both_modes() {
    assert_eq!(byte_gpio_values(0xFF, true), vec![0xFE, 0xFA, 0xFE, 0xFA]);
    assert_eq!(byte_gpio_values(0xFF, false), vec![0xFC, 0xF8, 0xFC, 0xF8]);
}

#[test]
fn every_byte_matches_formula() {
    for b in 0..=255u8 {
        for m in [false, true] {
            let (seen, result) = run(b, m, None);
            assert_eq!(result, Ok(()));
            assert_eq!(gpio_bytes(&seen), formula(b, m));
            assert_eq!(byte_gpio_values(b, m), formula(b, m));
        }
    }
}

#[test]
fn upper_nibble_goes_first() {
    let values = byte_gpio_values(0x3C, true);
    for (k, v) in values.iter().enumerate() {
        let lines = (v & 0x78) >> 3;
        if k < 2 {
            assert_eq!(lines, 0x3);
        } else {
            assert_eq!(lines, 0xC);
        }
    }
}

#[test]
fn enable_toggles_around_each_nibble() {
    let values = byte_gpio_values(0x5A, false);
    assert_eq!(values[0] & ENABLE, ENABLE);
    assert_eq!(values[1] & ENABLE, 0);
    assert_eq!(values[2] & ENABLE, ENABLE);
    assert_eq!(values[3] & ENABLE, 0);
    assert_eq!(values[0] ^ values[1], ENABLE);
    assert_eq!(values[2] ^ values[3], ENABLE);
}

#[test]
fn backlight_always_on() {
    for b in [0x00u8, 0x0F, 0xF0, 0xFF, 0x81] {
        for m in [false, true] {
            for v in byte_gpio_values(b, m) {
                assert_eq!(v & BACKLIGHT, BACKLIGHT);
            }
        }
    }
}

#[test]
fn delay_after_every_write() {
    let (seen, _) = run(0x42, true, None);
    assert_eq!(seen.len(), 8);
    for (i, s) in seen.iter().enumerate() {
        if i % 2 == 0 {
            assert!(matches!(s, Seen::Write(_, _)));
        } else {
            assert_eq!(*s, Seen::Wait(SETTLE_MICROS));
        }
    }
    assert!(SETTLE_MICROS >= 30);
}

#[test]
fn failure_on_third_transaction() {
    let (seen, result) = run(0xA5, true, Some(3));
    let e = result.unwrap_err();
    assert_eq!(e.phase, Phase::LowerEnableHigh);
    assert_eq!(e.source, "nack");
    assert!(e.is_mid_byte());
    assert_eq!(
        seen,
        vec![
            Seen::Write(MCP23008_GPIO, 0xD6),
            Seen::Wait(30),
            Seen::Write(MCP23008_GPIO, 0xD2),
            Seen::Wait(30),
            Seen::Write(MCP23008_GPIO, 0xAE),
        ]
    );
}

#[test]
fn failure_in_each_phase() {
    let phases = [Phase::UpperEnableHigh, Phase::UpperEnableLow, Phase::LowerEnableHigh, Phase::LowerEnableLow];
    for (k, phase) in phases.iter().enumerate() {
        let (seen, result) = run(0x12, false, Some(k + 1));
        let e = result.unwrap_err();
        assert_eq!(e.phase, *phase);
        assert_eq!(e.is_mid_byte(), k > 0);
        assert_eq!(seen.len(), 2 * k + 1);
    }
}

#[test]
fn machine_stays_put_after_failure() {
    let mut machine = ByteWrite::new(0x00, false);
    let r = machine.on_event(Err(5u8));
    assert_eq!(r, Err(BusWriteError { phase: Phase::UpperEnableHigh, source: 5u8 }));
    assert_eq!(machine.action(), Action::Write { register: MCP23008_GPIO, value: 0x84 });
    assert!(!machine.is_finished());
}

#[test]
fn finished_after_eight_steps() {
    let mut machine = ByteWrite::new(0x00, true);
    for _ in 0..8 {
        assert!(!machine.is_finished());
        machine.on_event::<()>(Ok(())).unwrap();
    }
    assert!(machine.is_finished());
    assert_eq!(machine.action(), Action::Finished);
}

#[test]
fn encoding_pieces() {
    assert_eq!(register_select(true), 0x02);
    assert_eq!(register_select(false), 0x00);
    assert_eq!(upper_nibble(0xA5), 0x50);
    assert_eq!(lower_nibble(0xA5), 0x28);
    assert_eq!(nibble_bits(0x50, true), 0xD2);
    assert_eq!(nibble_bits(0x28, false), 0xA8);
    assert_eq!(gpio_value(0xA5, true, 0), 0xD6);
    assert_eq!(gpio_value(0xA5, true, 3), 0xAA);
}

#[test]
fn phases_by_position() {
    assert_eq!(phase_of(0), Phase::UpperEnableHigh);
    assert_eq!(phase_of(1), Phase::UpperEnableHigh);
    assert_eq!(phase_of(2), Phase::UpperEnableLow);
    assert_eq!(phase_of(4), Phase::LowerEnableHigh);
    assert_eq!(phase_of(6), Phase::LowerEnableLow);
}
