//! The wide prefix: a two-state machine that couples one instruction to the
//! way the next one is read.

use crate::opcodes::{Error, Opcode};
use vstd::prelude::*;

verus! {

/// Whether the instruction about to be decoded stands behind a wide prefix.
#[derive(Debug, Clone, Copy, PartialEq, Eq, Structural)]
pub enum PrefixState {
    /// No prefix is in force.
    Normal,
    /// The instruction before was a wide prefix.
    WidePending,
}

impl PrefixState {
    /// The state after an instruction with `opcode` was met in this state, or
    /// the error that the opcode is in this state.
    ///
    /// In the normal state the wide prefix leads to the pending state and
    /// every other opcode stays. In the pending state an opcode that the
    /// prefix can widen leads back to the normal state, and every other
    /// opcode, the prefix itself among them, is an error.
    pub open spec fn spec_after(self, opcode: Opcode) -> Result<PrefixState, Error> {
        match self {
            PrefixState::Normal => if opcode == Opcode::Wide {
                Ok(PrefixState::WidePending)
            } else {
                Ok(PrefixState::Normal)
            },
            PrefixState::WidePending => if opcode.is_wide_eligible() {
                Ok(PrefixState::Normal)
            } else {
                Err(Error::MisplacedWidePrefix)
            },
        }
    }

    /// The state after an instruction with `opcode` was met in this state, or
    /// `MisplacedWidePrefix` where a prefix is pending and cannot widen it.
    #[verifier::when_used_as_spec(spec_after)]
    pub fn after(self, opcode: Opcode) -> (next: Result<PrefixState, Error>)
        ensures
            next == self.spec_after(opcode),
            next is Err <==> self == PrefixState::WidePending && !opcode.is_wide_eligible(),
            next == Ok::<PrefixState, Error>(PrefixState::WidePending) <==> self
                == PrefixState::Normal && opcode == Opcode::Wide,
    {
        match self {
            PrefixState::Normal => if opcode == Opcode::Wide {
                Ok(PrefixState::WidePending)
            } else {
                Ok(PrefixState::Normal)
            },
            PrefixState::WidePending => if opcode.is_wide_eligible() {
                Ok(PrefixState::Normal)
            } else {
                Err(Error::MisplacedWidePrefix)
            },
        }
    }

    /// Whether operands are read widened in this state.
    pub open spec fn spec_is_wide(self) -> bool {
        self == PrefixState::WidePending
    }

    /// Whether operands are read widened in this state.
    #[verifier::when_used_as_spec(spec_is_wide)]
    pub fn is_wide(self) -> (wide: bool)
        ensures
            wide == self.spec_is_wide(),
    {
        self == PrefixState::WidePending
    }
}

/// After a widened instruction the machine is back in the normal state: a
/// prefix reaches one instruction and no further.
pub proof fn lemma_prefix_reaches_one_instruction(opcode: Opcode)
    ensures
        PrefixState::WidePending.after(opcode) matches Ok(next) ==> next == PrefixState::Normal,
        PrefixState::Normal.after(opcode) is Ok,
{
}

} // verus!
