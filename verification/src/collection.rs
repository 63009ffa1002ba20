//! Sets of instruction decoders, as processors use them.

use crate::instruction::DecodedInstruction;
use solana_sdk::instruction::Instruction;
use vstd::prelude::*;

verus! {

/// The instructions of the programs that one set of decoders knows.
pub trait InstructionDecoderCollection:
    Clone + std::fmt::Debug + Send + Sync + Eq + std::hash::Hash + 'static
{
    type InstructionType: Clone + std::fmt::Debug + PartialEq + Eq + Send + Sync + 'static;

    /// Reads `instruction`, or gives `None` if no decoder of the set knows
    /// its program or its data: unknown instructions are expected traffic.
    fn parse_instruction(instruction: &Instruction) -> Option<DecodedInstruction<Self>>;

    /// Which instruction this is.
    fn get_type(&self) -> Self::InstructionType;
}

} // verus!
