//! The operands and the instructions of the Glulx machine, as data.

use vstd::prelude::*;

verus! {

/// Where an instruction takes an operand from.
#[derive(Clone, Copy, Debug, PartialEq, Eq, Structural)]
pub enum Load {
    /// The operand is the constant itself.
    Const(i32),
    /// The operand is in memory, at this address.
    Addr(u32),
    /// The operand is popped off the stack.
    Pop,
    /// The operand is a local of the current frame, at this offset.
    Frame(u32),
    /// The operand is in memory, at this offset from the start of the RAM.
    Ram(u32),
}

/// Where an instruction puts a result.
#[derive(Clone, Copy, Debug, PartialEq, Eq, Structural)]
pub enum Save {
    /// The result is dropped.
    Null,
    /// The result goes to memory, at this address.
    Addr(u32),
    /// The result is pushed on the stack.
    Push,
    /// The result goes to a local of the current frame, at this offset.
    Frame(u32),
    /// The result goes to memory, at this offset from the start of the RAM.
    Ram(u32),
}

/// The instructions, each with its operands in the order in which the
/// instruction stream gives them.
#[derive(Clone, Copy, Debug, PartialEq, Eq, Structural)]
pub enum Opcode {
    NOP,
    ADD(Load, Load, Save),
    SUB(Load, Load, Save),
    MUL(Load, Load, Save),
    DIV(Load, Load, Save),
    MOD(Load, Load, Save),
    NEG(Load, Save),
    BITAND(Load, Load, Save),
    BITOR(Load, Load, Save),
    BITXOR(Load, Load, Save),
    BITNOT(Load, Save),
    SHIFTL(Load, Load, Save),
    SSHIFTR(Load, Load, Save),
    USHIFTR(Load, Load, Save),
    JUMP(Load),
    JZ(Load, Load),
    JNZ(Load, Load),
    JEQ(Load, Load, Load),
    JNE(Load, Load, Load),
    JLT(Load, Load, Load),
    JGE(Load, Load, Load),
    JGT(Load, Load, Load),
    JLE(Load, Load, Load),
    JLTU(Load, Load, Load),
    JGEU(Load, Load, Load),
    JGTU(Load, Load, Load),
    JLEU(Load, Load, Load),
    CALL(Load, Load, Save),
    RETURN(Load),
    CATCH(Save, Load),
    THROW(Load, Load),
    TAILCALL(Load, Load),
    COPY(Load, Save),
    COPYS(Load, Save),
    COPYB(Load, Save),
    SEXS(Load, Save),
    SEXB(Load, Save),
    ALOAD(Load, Load, Save),
    ALOADS(Load, Load, Save),
    ALOADB(Load, Load, Save),
    ALOADBIT(Load, Load, Save),
    ASTORE(Load, Load, Load),
    ASTORES(Load, Load, Load),
    ASTOREB(Load, Load, Load),
    ASTOREBIT(Load, Load, Load),
    STKCOUNT(Save),
    STKPEEK(Load, Save),
    STKSWAP,
    STKROLL(Load, Load),
    STKCOPY(Load),
    STREAMCHAR(Load),
    STREAMNUM(Load),
    STREAMSTR(Load),
    STREAMUNICHAR(Load),
    GESTALT(Load, Load, Save),
    DEBUGTRAP(Load),
    GETMEMSIZE(Save),
    SETMEMSIZE(Load, Save),
    JUMPABS(Load),
    RANDOM(Load, Save),
    SETRANDOM(Save),
    QUIT,
    VERIFY(Save),
    RESTART,
    SAVE(Load, Save),
    RESTORE(Load, Save),
    SAVEUNDO(Save),
    RESTOREUNDO(Save),
    PROTECT(Load, Load),
    GLK(Load, Load, Save),
    GETSTRINGTBL(Save),
    SETSTRINGTBL(Load),
    GETIOSYS(Save, Save),
    SETIOSYS(Load, Load),
    LINEARSEARCH(Load, Load, Load, Load, Load, Load, Load, Save),
    BINARYSEARCH(Load, Load, Load, Load, Load, Load, Load, Save),
    LINKEDSEARCH(Load, Load, Load, Load, Load, Load, Save),
    CALLF(Load, Save),
    CALLFI(Load, Load, Save),
    CALLFII(Load, Load, Load, Save),
    CALLFIII(Load, Load, Load, Load, Save),
    MZERO(Load, Load),
    MCOPY(Load, Load, Load),
    MALLOC(Load, Save),
    MFREE(Load),
    ACCELFUNC(Load, Load),
    ACCELPARAM(Load, Load),
    NUMTOF(Load, Save),
    FTONUMZ(Load, Save),
    FTONUMN(Load, Save),
    CEIL(Load, Save),
    FLOOR(Load, Save),
    FADD(Load, Load, Save),
    FSUB(Load, Load, Save),
    FMUL(Load, Load, Save),
    FDIV(Load, Load, Save),
    FMOD(Load, Load, Save, Save),
    SQRT(Load, Save),
    EXP(Load, Save),
    LOG(Load, Save),
    POW(Load, Load, Save),
    SIN(Load, Save),
    COS(Load, Save),
    TAN(Load, Save),
    ASIN(Load, Save),
    ACOS(Load, Save),
    ATAN(Load, Save),
    ATAN2(Load, Load, Save),
    JFEQ(Load, Load, Load, Load),
    JFNE(Load, Load, Load, Load),
    JFLT(Load, Load, Load),
    JFLE(Load, Load, Load),
    JFGT(Load, Load, Load),
    JFGE(Load, Load, Load),
    JISNAN(Load, Load),
    JISINF(Load, Load),
}

} // verus!
