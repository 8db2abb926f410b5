//! Configuring the expander before the first transfer: every pin an output,
//! then the idle output state (backlight on, enable low).
use vstd::prelude::*;
use crate::error::{InitError, InitStage};
use crate::layout::{ALL_OUTPUTS, IDLE_OUTPUT, MCP23008_GPIO, MCP23008_IODIR};
use crate::transfer::Action;

verus! {

/// Number of configuration writes.
pub const INIT_STEPS: usize = 2;

/// The configuration writes, in order.
pub open spec fn init_schedule() -> Seq<Action> {
    seq![
        Action::Write { register: MCP23008_IODIR, value: ALL_OUTPUTS },
        Action::Write { register: MCP23008_GPIO, value: IDLE_OUTPUT },
    ]
}

/// The stage that the configuration write at `position` belongs to.
pub open spec fn stage_at(position: int) -> InitStage {
    if position == 0 { InitStage::Direction } else { InitStage::OutputState }
}

/// The expander's initialisation: how many of the writes of `init_schedule`
/// are done.
pub struct Initialization {
    position: usize,
}

impl Initialization {
    #[verifier::type_invariant]
    spec fn well_formed(self) -> bool {
        self.position <= INIT_STEPS
    }

    /// How many configuration writes are done.
    pub closed spec fn position(self) -> nat {
        self.position as nat
    }

    /// The action due now.
    pub open spec fn current(self) -> Action {
        if self.position() < INIT_STEPS {
            init_schedule()[self.position() as int]
        } else {
            Action::Finished
        }
    }

    /// An initialisation with nothing sent yet.
    pub fn new() -> (r: Initialization)
        ensures
            r.position() == 0,
            r.current() == init_schedule()[0],
    {
        Initialization { position: 0 }
    }

    /// The action due now.
    pub fn action(&self) -> (r: Action)
        ensures
            r == self.current(),
    {
        proof {
            use_type_invariant(self);
        }
        if self.position == 0 {
            Action::Write { register: MCP23008_IODIR, value: ALL_OUTPUTS }
        } else if self.position == 1 {
            Action::Write { register: MCP23008_GPIO, value: IDLE_OUTPUT }
        } else {
            Action::Finished
        }
    }

    /// Whether both configuration writes are done.
    pub fn is_finished(&self) -> (r: bool)
        ensures
            r == (self.current() is Finished),
    {
        proof {
            use_type_invariant(self);
        }
        self.position >= INIT_STEPS
    }

    /// Takes the outcome of the write due now and hands out the next action.
    /// A failed write ends the initialisation with the stage that failed and
    /// leaves the machine as it was.
    pub fn on_event<E>(&mut self, outcome: Result<(), E>) -> (r: Result<Action, InitError<E>>)
        requires
            !(old(self).current() is Finished),
        ensures
            match outcome {
                Ok(()) => {
                    &&& final(self).position() == old(self).position() + 1
                    &&& r == Ok::<Action, InitError<E>>(final(self).current())
                },
                Err(e) => {
                    &&& final(self).position() == old(self).position()
                    &&& r == Err::<Action, InitError<E>>(
                        InitError { stage: stage_at(old(self).position() as int), source: e },
                    )
                },
            },
    {
        proof {
            use_type_invariant(&*self);
        }
        match outcome {
            Ok(()) => {
                self.position = self.position + 1;
                Ok(self.action())
            },
            Err(e) => {
                let stage = if self.position == 0 { InitStage::Direction } else { InitStage::OutputState };
                Err(InitError { stage, source: e })
            },
        }
    }
}

} // verus!
