//! The instructions that this machine knows and does not carry out. Those
//! for input and output are handed to the host. Each of the others stops
//! the machine with the fault `Unimplemented`, whatever its operands.

use crate::interpreter::decode::{HostCall, Operand};
use crate::interpreter::{Fault, Glulx, Save};
use vstd::prelude::*;

verus! {

impl Glulx {
    /// CATCH: not carried out.
    #[allow(unused_variables)]
    pub fn op_catch(&mut self, s1: Save, l1: u32)
        ensures
            final(self)@ == old(self)@.halted(Fault::Unimplemented),
    {
        self.halt(Fault::Unimplemented)
    }

    /// THROW: not carried out.
    #[allow(unused_variables)]
    pub fn op_throw(&mut self, l1: u32, l2: u32)
        ensures
            final(self)@ == old(self)@.halted(Fault::Unimplemented),
    {
        self.halt(Fault::Unimplemented)
    }

    /// TAILCALL: not carried out.
    #[allow(unused_variables)]
    pub fn op_tailcall(&mut self, l1: u32, l2: u32)
        ensures
            final(self)@ == old(self)@.halted(Fault::Unimplemented),
    {
        self.halt(Fault::Unimplemented)
    }

    /// DEBUGTRAP: not carried out.
    #[allow(unused_variables)]
    pub fn op_debugtrap(&mut self, l1: u32)
        ensures
            final(self)@ == old(self)@.halted(Fault::Unimplemented),
    {
        self.halt(Fault::Unimplemented)
    }

    /// RANDOM: not carried out.
    #[allow(unused_variables)]
    pub fn op_random(&mut self, l1: i32, s1: Save)
        ensures
            final(self)@ == old(self)@.halted(Fault::Unimplemented),
    {
        self.halt(Fault::Unimplemented)
    }

    /// SETRANDOM: not carried out.
    #[allow(unused_variables)]
    pub fn op_setrandom(&mut self, l1: u32)
        ensures
            final(self)@ == old(self)@.halted(Fault::Unimplemented),
    {
        self.halt(Fault::Unimplemented)
    }

    /// VERIFY: not carried out.
    #[allow(unused_variables)]
    pub fn op_verify(&mut self, s1: Save)
        ensures
            final(self)@ == old(self)@.halted(Fault::Unimplemented),
    {
        self.halt(Fault::Unimplemented)
    }

    /// RESTART: not carried out.
    #[allow(unused_variables)]
    pub fn op_restart(&mut self)
        ensures
            final(self)@ == old(self)@.halted(Fault::Unimplemented),
    {
        self.halt(Fault::Unimplemented)
    }

    /// SAVE: not carried out.
    #[allow(unused_variables)]
    pub fn op_save(&mut self, l1: u32, s1: Save)
        ensures
            final(self)@ == old(self)@.halted(Fault::Unimplemented),
    {
        self.halt(Fault::Unimplemented)
    }

    /// RESTORE: not carried out.
    #[allow(unused_variables)]
    pub fn op_restore(&mut self, l1: u32, s1: Save)
        ensures
            final(self)@ == old(self)@.halted(Fault::Unimplemented),
    {
        self.halt(Fault::Unimplemented)
    }

    /// SAVEUNDO: not carried out.
    #[allow(unused_variables)]
    pub fn op_saveundo(&mut self, s1: Save)
        ensures
            final(self)@ == old(self)@.halted(Fault::Unimplemented),
    {
        self.halt(Fault::Unimplemented)
    }

    /// RESTOREUNDO: not carried out.
    #[allow(unused_variables)]
    pub fn op_restoreundo(&mut self, s1: Save)
        ensures
            final(self)@ == old(self)@.halted(Fault::Unimplemented),
    {
        self.halt(Fault::Unimplemented)
    }

    /// PROTECT: not carried out.
    #[allow(unused_variables)]
    pub fn op_protect(&mut self, l1: u32, l2: u32)
        ensures
            final(self)@ == old(self)@.halted(Fault::Unimplemented),
    {
        self.halt(Fault::Unimplemented)
    }

    /// LINEARSEARCH: not carried out.
    #[allow(unused_variables)]
    pub fn op_linearsearch(&mut self, l1: u32, l2: u32, l3: u32, l4: u32, l5: u32, l6: u32, l7: u32, s1: Save)
        ensures
            final(self)@ == old(self)@.halted(Fault::Unimplemented),
    {
        self.halt(Fault::Unimplemented)
    }

    /// BINARYSEARCH: not carried out.
    #[allow(unused_variables)]
    pub fn op_binarysearch(&mut self, l1: u32, l2: u32, l3: u32, l4: u32, l5: u32, l6: u32, l7: u32, s1: Save)
        ensures
            final(self)@ == old(self)@.halted(Fault::Unimplemented),
    {
        self.halt(Fault::Unimplemented)
    }

    /// LINKEDSEARCH: not carried out.
    #[allow(unused_variables)]
    pub fn op_linkedsearch(&mut self, l1: u32, l2: u32, l3: u32, l4: u32, l5: u32, l6: u32, s1: Save)
        ensures
            final(self)@ == old(self)@.halted(Fault::Unimplemented),
    {
        self.halt(Fault::Unimplemented)
    }

    /// MALLOC: not carried out.
    #[allow(unused_variables)]
    pub fn op_malloc(&mut self, l1: u32, s1: Save)
        ensures
            final(self)@ == old(self)@.halted(Fault::Unimplemented),
    {
        self.halt(Fault::Unimplemented)
    }

    /// MFREE: not carried out.
    #[allow(unused_variables)]
    pub fn op_mfree(&mut self, l1: u32)
        ensures
            final(self)@ == old(self)@.halted(Fault::Unimplemented),
    {
        self.halt(Fault::Unimplemented)
    }

    /// ACCELFUNC: not carried out.
    #[allow(unused_variables)]
    pub fn op_accelfunc(&mut self, l1: u32, l2: u32)
        ensures
            final(self)@ == old(self)@.halted(Fault::Unimplemented),
    {
        self.halt(Fault::Unimplemented)
    }

    /// ACCELPARAM: not carried out.
    #[allow(unused_variables)]
    pub fn op_accelparam(&mut self, l1: u32, l2: u32)
        ensures
            final(self)@ == old(self)@.halted(Fault::Unimplemented),
    {
        self.halt(Fault::Unimplemented)
    }
}

impl Glulx {
    /// STREAMCHAR: the character `l1` is to go to the output. The machine leaves
    /// that to its host: the call names the instruction and its operands.
    pub fn op_streamchar(&self, l1: u32) -> (r: HostCall)
        ensures
            r == (HostCall {
                opcode: 0x70,
                o1: Operand::Value(l1),
                o2: Operand::Value(0),
                o3: Operand::Value(0),
                o4: Operand::Value(0),
            }),
    {
        HostCall {
            opcode: 0x70,
            o1: Operand::Value(l1),
            o2: Operand::Value(0),
            o3: Operand::Value(0),
            o4: Operand::Value(0),
        }
    }

    /// STREAMNUM: the number `l1` is to go to the output, in decimal. The machine leaves
    /// that to its host: the call names the instruction and its operands.
    pub fn op_streamnum(&self, l1: u32) -> (r: HostCall)
        ensures
            r == (HostCall {
                opcode: 0x71,
                o1: Operand::Value(l1),
                o2: Operand::Value(0),
                o3: Operand::Value(0),
                o4: Operand::Value(0),
            }),
    {
        HostCall {
            opcode: 0x71,
            o1: Operand::Value(l1),
            o2: Operand::Value(0),
            o3: Operand::Value(0),
            o4: Operand::Value(0),
        }
    }

    /// STREAMSTR: the string at `l1` is to go to the output. The machine leaves
    /// that to its host: the call names the instruction and its operands.
    pub fn op_streamstr(&self, l1: u32) -> (r: HostCall)
        ensures
            r == (HostCall {
                opcode: 0x72,
                o1: Operand::Value(l1),
                o2: Operand::Value(0),
                o3: Operand::Value(0),
                o4: Operand::Value(0),
            }),
    {
        HostCall {
            opcode: 0x72,
            o1: Operand::Value(l1),
            o2: Operand::Value(0),
            o3: Operand::Value(0),
            o4: Operand::Value(0),
        }
    }

    /// STREAMUNICHAR: the Unicode character `l1` is to go to the output. The machine leaves
    /// that to its host: the call names the instruction and its operands.
    pub fn op_streamunichar(&self, l1: u32) -> (r: HostCall)
        ensures
            r == (HostCall {
                opcode: 0x73,
                o1: Operand::Value(l1),
                o2: Operand::Value(0),
                o3: Operand::Value(0),
                o4: Operand::Value(0),
            }),
    {
        HostCall {
            opcode: 0x73,
            o1: Operand::Value(l1),
            o2: Operand::Value(0),
            o3: Operand::Value(0),
            o4: Operand::Value(0),
        }
    }

    /// GLK: the Glk function `l1` is to be called with `l2` arguments from the
    /// stack; its result is to go to `s1`. The machine leaves
    /// that to its host: the call names the instruction and its operands.
    pub fn op_glk(&self, l1: u32, l2: u32, s1: Save) -> (r: HostCall)
        ensures
            r == (HostCall {
                opcode: 0x130,
                o1: Operand::Value(l1),
                o2: Operand::Value(l2),
                o3: Operand::Place(s1),
                o4: Operand::Value(0),
            }),
    {
        HostCall {
            opcode: 0x130,
            o1: Operand::Value(l1),
            o2: Operand::Value(l2),
            o3: Operand::Place(s1),
            o4: Operand::Value(0),
        }
    }

    /// GETSTRINGTBL: the address of the string table is to go to `s1`. The machine leaves
    /// that to its host: the call names the instruction and its operands.
    pub fn op_getstringtbl(&self, s1: Save) -> (r: HostCall)
        ensures
            r == (HostCall {
                opcode: 0x140,
                o1: Operand::Place(s1),
                o2: Operand::Value(0),
                o3: Operand::Value(0),
                o4: Operand::Value(0),
            }),
    {
        HostCall {
            opcode: 0x140,
            o1: Operand::Place(s1),
            o2: Operand::Value(0),
            o3: Operand::Value(0),
            o4: Operand::Value(0),
        }
    }

    /// SETSTRINGTBL: the string table is to be the one at `l1`. The machine leaves
    /// that to its host: the call names the instruction and its operands.
    pub fn op_setstringtbl(&self, l1: u32) -> (r: HostCall)
        ensures
            r == (HostCall {
                opcode: 0x141,
                o1: Operand::Value(l1),
                o2: Operand::Value(0),
                o3: Operand::Value(0),
                o4: Operand::Value(0),
            }),
    {
        HostCall {
            opcode: 0x141,
            o1: Operand::Value(l1),
            o2: Operand::Value(0),
            o3: Operand::Value(0),
            o4: Operand::Value(0),
        }
    }

    /// GETIOSYS: the mode and the rock of the output system are to go to `s1`
    /// and `s2`. The machine leaves
    /// that to its host: the call names the instruction and its operands.
    pub fn op_getiosys(&self, s1: Save, s2: Save) -> (r: HostCall)
        ensures
            r == (HostCall {
                opcode: 0x148,
                o1: Operand::Place(s1),
                o2: Operand::Place(s2),
                o3: Operand::Value(0),
                o4: Operand::Value(0),
            }),
    {
        HostCall {
            opcode: 0x148,
            o1: Operand::Place(s1),
            o2: Operand::Place(s2),
            o3: Operand::Value(0),
            o4: Operand::Value(0),
        }
    }

    /// SETIOSYS: the output system is to be the one of mode `l1`, with the
    /// rock `l2`. The machine leaves
    /// that to its host: the call names the instruction and its operands.
    pub fn op_setiosys(&self, l1: u32, l2: u32) -> (r: HostCall)
        ensures
            r == (HostCall {
                opcode: 0x149,
                o1: Operand::Value(l1),
                o2: Operand::Value(l2),
                o3: Operand::Value(0),
                o4: Operand::Value(0),
            }),
    {
        HostCall {
            opcode: 0x149,
            o1: Operand::Value(l1),
            o2: Operand::Value(l2),
            o3: Operand::Value(0),
            o4: Operand::Value(0),
        }
    }
}

} // verus!
