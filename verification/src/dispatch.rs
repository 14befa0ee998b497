//! The dispatch table: for every opcode byte of both tables the instruction
//! that it selects, decoded once when the table is built and looked up by
//! index at every step.

use vstd::prelude::*;
use crate::decode::{decode, decoded, lemma_decoded_has_opcode, Instruction, Opcode};

verus! {

/// The decoded base table and extended table, each indexed by opcode byte.
pub struct DispatchTable {
    base: [Option<Instruction>; 256],
    extended: [Option<Instruction>; 256],
}

impl DispatchTable {
    /// The entry of the table for `opcode`.
    pub closed spec fn entry(&self, opcode: Opcode) -> Option<Instruction> {
        if opcode.extended {
            self.extended@[opcode.byte as int]
        } else {
            self.base@[opcode.byte as int]
        }
    }

    /// Every entry is what its opcode decodes to.
    #[verifier::type_invariant]
    spec fn is_filled(&self) -> bool {
        &&& forall|byte: int|
            0 <= byte < 256 ==> #[trigger] self.base@[byte] == decoded(
                Opcode { byte: byte as u8, extended: false },
            )
        &&& forall|byte: int|
            0 <= byte < 256 ==> #[trigger] self.extended@[byte] == decoded(
                Opcode { byte: byte as u8, extended: true },
            )
    }

    /// Builds both tables: 512 entries, each decoded from its opcode.
    pub fn new() -> (table: DispatchTable)
        ensures
            forall|opcode: Opcode| #[trigger] table.entry(opcode) == decoded(opcode),
    {
        let mut base: [Option<Instruction>; 256] = [None; 256];
        let mut extended: [Option<Instruction>; 256] = [None; 256];
        let mut index: usize = 0;
        while index < 256
            invariant
                index <= 256,
                forall|byte: int|
                    0 <= byte < index ==> #[trigger] base@[byte] == decoded(
                        Opcode { byte: byte as u8, extended: false },
                    ),
                forall|byte: int|
                    0 <= byte < index ==> #[trigger] extended@[byte] == decoded(
                        Opcode { byte: byte as u8, extended: true },
                    ),
            decreases 256 - index,
        {
            base[index] = decode(Opcode { byte: index as u8, extended: false });
            extended[index] = decode(Opcode { byte: index as u8, extended: true });
            index += 1;
        }
        DispatchTable { base, extended }
    }

    /// The instruction that `opcode` selects. `None` says that no handler is
    /// assigned to it, which happens in the base table only.
    pub fn lookup(&self, opcode: Opcode) -> (instruction: Option<Instruction>)
        ensures
            instruction == self.entry(opcode),
            instruction == decoded(opcode),
            instruction matches Some(i) ==> i.is_valid() && i.opcode() == opcode,
            opcode.extended ==> instruction is Some,
    {
        proof {
            use_type_invariant(self);
            lemma_decoded_has_opcode(opcode);
        }
        if opcode.extended {
            self.extended[opcode.byte as usize]
        } else {
            self.base[opcode.byte as usize]
        }
    }
}

} // verus!
