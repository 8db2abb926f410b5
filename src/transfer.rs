//! The byte write as a state machine.
//!
//! `Idle -> UpperEnableHigh -> UpperEnableLow -> LowerEnableHigh ->
//! LowerEnableLow -> Idle`: each step is one GPIO write followed by the settle
//! delay. The caller performs the [`Action`] the machine hands out and reports
//! its outcome to [`ByteWrite::on_event`], which hands out the next one.
use vstd::prelude::*;
use crate::encode::{gpio_value, gpio_values};
use crate::error::{BusWriteError, Phase};
use crate::layout::{MCP23008_GPIO, SETTLE_MICROS};

verus! {

/// What the caller is to do next.
#[derive(Clone, Copy, Debug, PartialEq, Eq, Structural)]
pub enum Action {
    /// One I2C transaction to the expander: the bytes `[register, value]`.
    Write { register: u8, value: u8 },
    /// Block for at least `micros` microseconds.
    Wait { micros: u16 },
    /// Nothing is left to do.
    Finished,
}

/// Writing `value` to the GPIO port.
pub open spec fn gpio_write(value: u8) -> Action {
    Action::Write { register: MCP23008_GPIO, value }
}

/// The settle delay after a GPIO write.
pub open spec fn settle() -> Action {
    Action::Wait { micros: SETTLE_MICROS }
}

/// Number of steps of a byte write: four GPIO writes, each with its delay.
pub const BYTE_STEPS: usize = 8;

/// Every action of the write of `byte`, in order: each GPIO value of
/// `gpio_values` followed by the settle delay.
pub open spec fn byte_schedule(byte: u8, data: bool) -> Seq<Action> {
    Seq::new(
        BYTE_STEPS as nat,
        |i: int| if i % 2 == 0 { gpio_write(gpio_values(byte, data)[i / 2]) } else { settle() },
    )
}

/// The phase that the step at `position` of a byte write belongs to.
pub open spec fn phase_at(position: int) -> Phase {
    if position < 2 {
        Phase::UpperEnableHigh
    } else if position < 4 {
        Phase::UpperEnableLow
    } else if position < 6 {
        Phase::LowerEnableHigh
    } else {
        Phase::LowerEnableLow
    }
}

/// The phase that the step at `position` of a byte write belongs to.
pub fn phase_of(position: usize) -> (r: Phase)
    ensures
        r == phase_at(position as int),
{
    if position < 2 {
        Phase::UpperEnableHigh
    } else if position < 4 {
        Phase::UpperEnableLow
    } else if position < 6 {
        Phase::LowerEnableHigh
    } else {
        Phase::LowerEnableLow
    }
}

/// One byte on its way to the LCD: the byte, its mode, and how many steps of
/// `byte_schedule` are done.
pub struct ByteWrite {
    byte: u8,
    data: bool,
    position: usize,
}

impl ByteWrite {
    #[verifier::type_invariant]
    spec fn well_formed(self) -> bool {
        self.position <= BYTE_STEPS
    }

    /// The byte being written.
    pub closed spec fn byte(self) -> u8 {
        self.byte
    }

    /// Whether the byte is display data (`true`) or a command (`false`).
    pub closed spec fn data(self) -> bool {
        self.data
    }

    /// How many steps are done.
    pub closed spec fn position(self) -> nat {
        self.position as nat
    }

    /// The action due now.
    pub open spec fn current(self) -> Action {
        if self.position() < BYTE_STEPS {
            byte_schedule(self.byte(), self.data())[self.position() as int]
        } else {
            Action::Finished
        }
    }

    /// A write of `byte`, as display data when `data` holds, else as a command,
    /// with nothing sent yet.
    pub fn new(byte: u8, data: bool) -> (r: ByteWrite)
        ensures
            r.byte() == byte,
            r.data() == data,
            r.position() == 0,
            r.current() == gpio_write(gpio_values(byte, data)[0]),
    {
        ByteWrite { byte, data, position: 0 }
    }

    /// The action due now.
    pub fn action(&self) -> (r: Action)
        ensures
            r == self.current(),
    {
        proof {
            use_type_invariant(self);
        }
        if self.position >= BYTE_STEPS {
            Action::Finished
        } else if self.position % 2 == 1 {
            Action::Wait { micros: SETTLE_MICROS }
        } else {
            Action::Write { register: MCP23008_GPIO, value: gpio_value(self.byte, self.data, self.position / 2) }
        }
    }

    /// Whether every step is done.
    pub fn is_finished(&self) -> (r: bool)
        ensures
            r == (self.current() is Finished),
    {
        proof {
            use_type_invariant(self);
        }
        self.position >= BYTE_STEPS
    }

    /// Takes the outcome of the action due now and hands out the next one.
    /// A finished delay is reported as `Ok(())`. A failed GPIO write ends the
    /// byte with the phase that failed and leaves the machine as it was.
    pub fn on_event<E>(&mut self, outcome: Result<(), E>) -> (r: Result<Action, BusWriteError<E>>)
        requires
            !(old(self).current() is Finished),
            outcome is Err ==> old(self).current() is Write,
        ensures
            final(self).byte() == old(self).byte(),
            final(self).data() == old(self).data(),
            match outcome {
                Ok(()) => {
                    &&& final(self).position() == old(self).position() + 1
                    &&& r == Ok::<Action, BusWriteError<E>>(final(self).current())
                },
                Err(e) => {
                    &&& final(self).position() == old(self).position()
                    &&& r == Err::<Action, BusWriteError<E>>(
                        BusWriteError { phase: phase_at(old(self).position() as int), source: e },
                    )
                },
            },
    {
        proof {
            use_type_invariant(&*self);
        }
        match outcome {
            Ok(()) => {
                self.position = self.position + 1;
                Ok(self.action())
            },
            Err(e) => Err(BusWriteError { phase: phase_of(self.position), source: e }),
        }
    }
}

} // verus!
