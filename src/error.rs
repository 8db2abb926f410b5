//! What goes wrong: a transport failure, with the step in which it happened.
use vstd::prelude::*;

verus! {

/// The GPIO write of a byte transfer, in the order the writes go out.
#[derive(Clone, Copy, Debug, PartialEq, Eq, Structural)]
pub enum Phase {
    UpperEnableHigh,
    UpperEnableLow,
    LowerEnableHigh,
    LowerEnableLow,
}

/// A byte write stopped because the transport refused one of its GPIO writes.
/// The byte counts as not delivered.
#[derive(Debug, PartialEq, Eq)]
pub struct BusWriteError<E> {
    /// The write that failed.
    pub phase: Phase,
    /// The transport's own error.
    pub source: E,
}

impl<E> BusWriteError<E> {
    /// Whether the failure came after part of the byte reached the LCD. The
    /// controller's latch state is then unknown and it should be initialised
    /// again; otherwise nothing was sent and the byte can simply be retried.
    pub fn is_mid_byte(&self) -> (r: bool)
        ensures
            r == (self.phase != Phase::UpperEnableHigh),
    {
        match self.phase {
            Phase::UpperEnableHigh => false,
            _ => true,
        }
    }
}

/// The configuration write of the expander's initialisation.
#[derive(Clone, Copy, Debug, PartialEq, Eq, Structural)]
pub enum InitStage {
    /// Making every pin an output.
    Direction,
    /// Setting the idle output state.
    OutputState,
}

/// The expander could not be configured; the handle must not be used.
#[derive(Debug, PartialEq, Eq)]
pub struct InitError<E> {
    /// The write that failed.
    pub stage: InitStage,
    /// The transport's own error.
    pub source: E,
}

/// Any failure of the driver.
#[derive(Debug, PartialEq, Eq)]
pub enum DriverError<E> {
    Init(InitError<E>),
    BusWrite(BusWriteError<E>),
}

} // verus!
