//! Disassembling x86-64 code.

use capstone::arch::x86::ArchMode::Mode64;
use capstone::arch::x86::ArchSyntax::Att;
use capstone::arch::x86::X86OperandType::{Imm, Mem};
use capstone::arch::{BuildsCapstone, BuildsCapstoneSyntax, DetailsArchInsn};
use capstone::Capstone;
use vstd::prelude::*;

use crate::x86;
use crate::x86::X86Operand::{Immediate, Memory, Other};
use crate::x86::{X86Insn, X86InsnView};

verus! {

/// The error of the `capstone` crate.
#[verifier::external_type_specification]
#[verifier::external_body]
pub struct ExCapstoneError(capstone::Error);

/// What `capstone::Capstone::disasm_all` makes of 64-bit code in AT&T syntax; nothing where it
/// fails.
pub uninterp spec fn disassembly(code: Seq<u8>, addr: u64) -> Option<Seq<X86InsnView>>;

/// What `capstone::Capstone::disasm_count` makes of 64-bit code in AT&T syntax; nothing where it
/// fails.
pub uninterp spec fn disassembly_prefix(code: Seq<u8>, addr: u64, count: usize) -> Option<
    Seq<X86InsnView>,
>;

/// Calls `capstone::Capstone::disasm_all` with details, for 64-bit code in AT&T syntax. Each
/// instruction keeps the mnemonic that `insn_name` gives, its address, its length and the
/// operands that `insn_detail` gives: immediate numbers, memory with its displacement and the
/// base register that `reg_name` gives, and others. The result depends on the code and its
/// address alone; what the instructions are is not stated.
#[verifier::external_body]
pub(crate) fn disassemble(code: &[u8], addr: u64) -> (r: Result<Vec<X86Insn>, capstone::Error>)
    ensures
        match r {
            Ok(insns) => disassembly(code@, addr) == Some(x86::insn_views(insns@)),
            Err(_) => disassembly(code@, addr) is None,
        },
{
    let cs = Capstone::new().x86().mode(Mode64).syntax(Att).detail(true).build()?;
    let insns = cs.disasm_all(code, addr)?;
    Ok(insns.iter().map(|i| X86Insn {
        mnemonic: cs.insn_name(i.id()),
        address: i.address(),
        len: i.len(),
        operands: cs.insn_detail(i).ok().and_then(|d| d.arch_detail().x86().map(
            |x| x.operands().map(|op| match op.op_type {
                Imm(value) => Immediate(value),
                Mem(m) => Memory { base: cs.reg_name(m.base()), disp: m.disp() },
                _ => Other,
            }).collect()
        )),
    }).collect())
}

/// Calls `capstone::Capstone::disasm_count` with details, for 64-bit code in AT&T syntax. Each
/// instruction keeps the mnemonic that `insn_name` gives, its address, its length and the
/// operands that `insn_detail` gives: immediate numbers, memory with its displacement and the
/// base register that `reg_name` gives, and others. The result depends on the code, its address
/// and the number of instructions alone; what the instructions are is not stated.
#[verifier::external_body]
pub(crate) fn disassemble_prefix(code: &[u8], addr: u64, count: usize) -> (r: Result<
    Vec<X86Insn>,
    capstone::Error,
>)
    ensures
        match r {
            Ok(insns) => disassembly_prefix(code@, addr, count) == Some(x86::insn_views(insns@)),
            Err(_) => disassembly_prefix(code@, addr, count) is None,
        },
{
    let cs = Capstone::new().x86().mode(Mode64).syntax(Att).detail(true).build()?;
    let insns = cs.disasm_count(code, addr, count)?;
    Ok(insns.iter().map(|i| X86Insn {
        mnemonic: cs.insn_name(i.id()),
        address: i.address(),
        len: i.len(),
        operands: cs.insn_detail(i).ok().and_then(|d| d.arch_detail().x86().map(
            |x| x.operands().map(|op| match op.op_type {
                Imm(value) => Immediate(value),
                Mem(m) => Memory { base: cs.reg_name(m.base()), disp: m.disp() },
                _ => Other,
            }).collect()
        )),
    }).collect())
}

} // verus!
