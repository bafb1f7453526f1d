//! AArch64 instructions, and what a stretch of them leaves in the registers.

use std::collections::HashMap;

use vstd::prelude::*;

use crate::bytes;
use crate::bytes::read_u64_at;
use crate::errors::ReadFailure;
use crate::object_file;
use crate::object_file::{try_vaddr_conv, ObjectFile};
use crate::reader::Image;

verus! {

/// The number of register `x0`.
pub const X0: u32 = 0;

/// The number of register `x1`.
pub const X1: u32 = 1;

/// An operation. Only those that the search for the registrations looks at are told apart.
#[derive(Clone, Copy, PartialEq, Eq, Debug, Structural)]
pub enum A64Op {
    Adrp,
    Add,
    Ldr,
    Bl,
    Blr,
    Other,
}

/// An immediate number.
#[derive(Clone, Copy, PartialEq, Eq, Debug, Structural)]
pub enum A64Imm {
    Signed(i64),
    Unsigned(u64),
}

/// An operand. Every register has a number of its own; `x0` and `x1` have those of [`X0`] and
/// [`X1`].
#[derive(Clone, Copy, PartialEq, Eq, Debug, Structural)]
pub enum A64Operand {
    Reg(u32),
    Label(A64Imm),
    Imm64(A64Imm),
    MemOffset { reg: u32, offset: A64Imm },
    Other,
}

/// A decoded instruction.
#[derive(Debug)]
pub struct A64Insn {
    pub op: A64Op,
    pub operands: Vec<A64Operand>,
}

/// The mathematical value of an [`A64Insn`].
pub struct A64InsnView {
    pub op: A64Op,
    pub operands: Seq<A64Operand>,
}

impl View for A64Insn {
    type V = A64InsnView;

    open spec fn view(&self) -> A64InsnView {
        A64InsnView { op: self.op, operands: self.operands@ }
    }
}

/// The values of a list of instructions.
pub open spec fn insn_views(insns: Seq<A64Insn>) -> Seq<A64InsnView> {
    insns.map_values(|i: A64Insn| i@)
}

/// Where a `bl` instruction goes.
pub open spec fn bl_target(insn: A64InsnView) -> Option<u64> {
    if insn.op == A64Op::Bl && insn.operands.len() == 1 {
        match insn.operands[0] {
            A64Operand::Label(A64Imm::Unsigned(target)) => Some(target),
            _ => None,
        }
    } else {
        None
    }
}

/// The register that a `blr` instruction goes through.
pub open spec fn blr_register(insn: A64InsnView) -> Option<u32> {
    if insn.op == A64Op::Blr && insn.operands.len() == 1 {
        match insn.operands[0] {
            A64Operand::Reg(reg) => Some(reg),
            _ => None,
        }
    } else {
        None
    }
}

/// What an instruction does to a register.
#[derive(Clone, Copy, PartialEq, Eq, Debug, Structural)]
pub enum Effect {
    /// The register becomes this page address.
    Page { reg: u32, value: u64 },
    /// This number is added to the register.
    Offset { reg: u32, value: u64 },
    /// The register becomes what stands in memory this far from where it points.
    Load { reg: u32, offset: i64 },
    /// Nothing that is followed.
    Nothing,
}

/// What an instruction does to a register: `adrp` sets it, `add` of an immediate number and
/// `ldr` change it in place. Where the last two read one register and write another, they are
/// not followed.
pub open spec fn effect(insn: A64InsnView) -> Effect {
    let ops = insn.operands;
    match insn.op {
        A64Op::Adrp => if ops.len() == 2 {
            match (ops[0], ops[1]) {
                (A64Operand::Reg(reg), A64Operand::Label(A64Imm::Unsigned(value))) => Effect::Page {
                    reg,
                    value,
                },
                _ => Effect::Nothing,
            }
        } else {
            Effect::Nothing
        },
        A64Op::Add => if ops.len() == 3 {
            match (ops[0], ops[1], ops[2]) {
                (
                    A64Operand::Reg(a),
                    A64Operand::Reg(b),
                    A64Operand::Imm64(A64Imm::Unsigned(value)),
                ) => if a == b {
                    Effect::Offset { reg: a, value }
                } else {
                    Effect::Nothing
                },
                _ => Effect::Nothing,
            }
        } else {
            Effect::Nothing
        },
        A64Op::Ldr => if ops.len() == 2 {
            match (ops[0], ops[1]) {
                (
                    A64Operand::Reg(a),
                    A64Operand::MemOffset { reg: b, offset: A64Imm::Signed(offset) },
                ) => if a == b {
                    Effect::Load { reg: a, offset }
                } else {
                    Effect::Nothing
                },
                _ => Effect::Nothing,
            }
        } else {
            Effect::Nothing
        },
        _ => Effect::Nothing,
    }
}

/// The 64-bit number that stands at `vaddr`.
pub open spec fn word_in_memory(img: Image, vaddr: u64) -> Result<u64, ReadFailure> {
    match object_file::locate(img.segments, vaddr) {
        Ok(offset) => if bytes::fits(img.data, offset as int, 8) {
            Ok(bytes::u64_at(img.data, offset as int))
        } else {
            Err(ReadFailure::Malformed)
        },
        Err(_) => Err(ReadFailure::Malformed),
    }
}

/// The known registers after one more effect. Sums wrap around at 64 bits. A register that is
/// not known stays so unless a page address is put into it.
pub open spec fn apply_effect(img: Image, regs: Map<u32, u64>, effect: Effect) -> Result<
    Map<u32, u64>,
    ReadFailure,
> {
    match effect {
        Effect::Page { reg, value } => Ok(regs.insert(reg, value)),
        Effect::Offset { reg, value } => if regs.dom().contains(reg) {
            Ok(regs.insert(reg, regs[reg].wrapping_add(value)))
        } else {
            Ok(regs)
        },
        Effect::Load { reg, offset } => if regs.dom().contains(reg) {
            match word_in_memory(img, regs[reg].wrapping_add_signed(offset)) {
                Ok(word) => Ok(regs.insert(reg, word)),
                Err(e) => Err(e),
            }
        } else {
            Ok(regs)
        },
        Effect::Nothing => Ok(regs),
    }
}

/// The registers that are known after these instructions, when none was before.
pub open spec fn registers_after(img: Image, insns: Seq<A64InsnView>) -> Result<
    Map<u32, u64>,
    ReadFailure,
>
    decreases insns.len(),
{
    if insns.len() == 0 {
        Ok(Map::empty())
    } else {
        match registers_after(img, insns.drop_last()) {
            Ok(regs) => apply_effect(img, regs, effect(insns.last())),
            Err(e) => Err(e),
        }
    }
}

/// A failure on the way is a failure at the end.
proof fn lemma_registers_stop(img: Image, insns: Seq<A64InsnView>, n: int)
    requires
        0 <= n <= insns.len(),
        registers_after(img, insns.take(n)) is Err,
    ensures
        registers_after(img, insns) == registers_after(img, insns.take(n)),
    decreases insns.len() - n,
{
    if n == insns.len() {
        assert(insns.take(n) =~= insns);
    } else {
        assert(insns.take(n + 1).drop_last() =~= insns.take(n));
        lemma_registers_stop(img, insns, n + 1);
    }
}

/// A known register has been given a page address.
pub proof fn law_known_registers_begin_with_a_page(img: Image, insns: Seq<A64InsnView>, reg: u32)
    requires
        registers_after(img, insns) matches Ok(regs) && regs.dom().contains(reg),
    ensures
        exists|i: int|
            0 <= i < insns.len() && (#[trigger] effect(insns[i]) matches Effect::Page {
                reg: r,
                ..
            } && r == reg),
    decreases insns.len(),
{
    let front = insns.drop_last();
    let known = registers_after(img, front).unwrap();
    if known.dom().contains(reg) {
        law_known_registers_begin_with_a_page(img, front, reg);
        let i = choose|i: int|
            0 <= i < front.len() && (#[trigger] effect(front[i]) matches Effect::Page {
                reg: r,
                ..
            } && r == reg);
        assert(effect(insns[i]) == effect(front[i]));
    } else {
        assert(effect(insns[insns.len() - 1]) matches Effect::Page { reg: r, .. } && r == reg);
    }
}

/// An instruction that does nothing to a register leaves the registers as they were.
pub proof fn law_other_instructions_change_nothing(
    img: Image,
    insns: Seq<A64InsnView>,
    insn: A64InsnView,
)
    requires
        effect(insn) == Effect::Nothing,
    ensures
        registers_after(img, insns.push(insn)) == registers_after(img, insns),
{
    assert(insns.push(insn).drop_last() =~= insns);
}

impl A64Insn {
    /// Where a `bl` instruction goes.
    pub fn bl_target(&self) -> (r: Option<u64>)
        ensures
            r == bl_target(self@),
    {
        if self.op == A64Op::Bl && self.operands.len() == 1 {
            match self.operands[0] {
                A64Operand::Label(A64Imm::Unsigned(target)) => Some(target),
                _ => None,
            }
        } else {
            None
        }
    }

    /// The register that a `blr` instruction goes through.
    pub fn blr_register(&self) -> (r: Option<u32>)
        ensures
            r == blr_register(self@),
    {
        if self.op == A64Op::Blr && self.operands.len() == 1 {
            match self.operands[0] {
                A64Operand::Reg(reg) => Some(reg),
                _ => None,
            }
        } else {
            None
        }
    }

    /// What an instruction does to a register.
    pub fn effect(&self) -> (r: Effect)
        ensures
            r == effect(self@),
    {
        let ops = &self.operands;
        match self.op {
            A64Op::Adrp => {
                if ops.len() != 2 {
                    return Effect::Nothing;
                }
                match (ops[0], ops[1]) {
                    (A64Operand::Reg(reg), A64Operand::Label(A64Imm::Unsigned(value))) => {
                        Effect::Page { reg, value }
                    },
                    _ => Effect::Nothing,
                }
            },
            A64Op::Add => {
                if ops.len() != 3 {
                    return Effect::Nothing;
                }
                match (ops[0], ops[1], ops[2]) {
                    (
                        A64Operand::Reg(a),
                        A64Operand::Reg(b),
                        A64Operand::Imm64(A64Imm::Unsigned(value)),
                    ) => {
                        if a != b {
                            return Effect::Nothing;
                        }
                        Effect::Offset { reg: a, value }
                    },
                    _ => Effect::Nothing,
                }
            },
            A64Op::Ldr => {
                if ops.len() != 2 {
                    return Effect::Nothing;
                }
                match (ops[0], ops[1]) {
                    (
                        A64Operand::Reg(a),
                        A64Operand::MemOffset { reg: b, offset: A64Imm::Signed(offset) },
                    ) => {
                        if a != b {
                            return Effect::Nothing;
                        }
                        Effect::Load { reg: a, offset }
                    },
                    _ => Effect::Nothing,
                }
            },
            _ => Effect::Nothing,
        }
    }
}

/// Reads the 64-bit number that stands at `vaddr`.
pub(crate) fn read_word(object: &ObjectFile, data: &[u8], vaddr: u64) -> (r: Result<
    u64,
    ReadFailure,
>)
    ensures
        r == word_in_memory(
            Image { segments: object.segments@, bss: object.bss, data: data@ },
            vaddr,
        ),
{
    match try_vaddr_conv(object, vaddr) {
        Ok(offset) => {
            let len: usize = data.len();
            if len < 8 || offset > (len - 8) as u64 {
                return Err(ReadFailure::Malformed);
            }
            Ok(read_u64_at(data, offset as usize))
        },
        Err(_) => Err(ReadFailure::Malformed),
    }
}

/// What is known of a register.
pub(crate) fn known_value(regs: &HashMap<u32, u64>, reg: u32) -> (r: Option<u64>)
    ensures
        match r {
            Some(value) => regs@.dom().contains(reg) && regs@[reg] == value,
            None => !regs@.dom().contains(reg),
        },
{
    match regs.get(&reg) {
        Some(value) => Some(*value),
        None => None,
    }
}

/// Follows the registers through a stretch of instructions, none being known before it.
pub fn analyze_reg_rel(elf: &ObjectFile, elf_rel: &[u8], instructions: &Vec<A64Insn>) -> (r: Result<
    HashMap<u32, u64>,
    ReadFailure,
>)
    ensures
        ({
            let img = Image { segments: elf.segments@, bss: elf.bss, data: elf_rel@ };
            match r {
                Ok(map) => registers_after(img, insn_views(instructions@)) == Ok::<
                    Map<u32, u64>,
                    ReadFailure,
                >(map@),
                Err(e) => registers_after(img, insn_views(instructions@)) == Err::<
                    Map<u32, u64>,
                    ReadFailure,
                >(e),
            }
        }),
{
    let ghost img = Image { segments: elf.segments@, bss: elf.bss, data: elf_rel@ };
    let ghost views = insn_views(instructions@);
    let mut map: HashMap<u32, u64> = HashMap::new();
    let mut i: usize = 0;
    while i < instructions.len()
        invariant
            i <= instructions@.len(),
            img == (Image { segments: elf.segments@, bss: elf.bss, data: elf_rel@ }),
            views == insn_views(instructions@),
            registers_after(img, views.take(i as int)) == Ok::<Map<u32, u64>, ReadFailure>(map@),
        decreases instructions@.len() - i,
    {
        let effect: Effect = instructions[i].effect();
        proof {
            assert(views.take(i + 1).drop_last() =~= views.take(i as int));
            assert(views.take(i + 1).last() == instructions@[i as int]@);
        }
        match effect {
            Effect::Page { reg, value } => {
                map.insert(reg, value);
            },
            Effect::Offset { reg, value } => {
                let known: Option<u64> = known_value(&map, reg);
                if let Some(v) = known {
                    map.insert(reg, v.wrapping_add(value));
                }
            },
            Effect::Load { reg, offset } => {
                let known: Option<u64> = known_value(&map, reg);
                if let Some(v) = known {
                    match read_word(elf, elf_rel, v.wrapping_add_signed(offset)) {
                        Ok(word) => {
                            map.insert(reg, word);
                        },
                        Err(e) => {
                            proof {
                                lemma_registers_stop(img, views, i + 1);
                            }
                            return Err(e);
                        },
                    }
                }
            },
            Effect::Nothing => {},
        }
        i += 1;
    }
    assert(views.take(i as int) =~= views);
    Ok(map)
}

// ---------------------------------------------------------------------------------------------
// What instructions do
// ---------------------------------------------------------------------------------------------

/// Whether two sets of known registers differ in one register at most.
pub open spec fn same_but_for(before: Map<u32, u64>, after: Map<u32, u64>, reg: u32) -> bool {
    forall|r: u32|
        r != reg ==> (#[trigger] after.dom().contains(r) <==> before.dom().contains(r)) && (
        before.dom().contains(r) ==> after[r] == before[r])
}

/// The operands of an `adrp` instruction.
pub open spec fn adrp_operands(reg: u32, value: u64) -> Seq<A64Operand> {
    seq![A64Operand::Reg(reg), A64Operand::Label(A64Imm::Unsigned(value))]
}

/// The operands of an `add` of an immediate number to a register itself.
pub open spec fn add_operands(reg: u32, value: u64) -> Seq<A64Operand> {
    seq![
        A64Operand::Reg(reg),
        A64Operand::Reg(reg),
        A64Operand::Imm64(A64Imm::Unsigned(value)),
    ]
}

/// The operands of an `ldr` of a register through itself.
pub open spec fn ldr_operands(reg: u32, offset: i64) -> Seq<A64Operand> {
    seq![
        A64Operand::Reg(reg),
        A64Operand::MemOffset { reg, offset: A64Imm::Signed(offset) },
    ]
}

/// No register is known before the first instruction.
pub proof fn law_no_register_is_known_at_first(img: Image)
    ensures
        registers_after(img, Seq::empty()) matches Ok(regs) && forall|r: u32|
            !#[trigger] regs.dom().contains(r),
{
}

/// `adrp` gives its register a new value, whatever it held before, and leaves the others alone.
pub proof fn law_adrp(
    img: Image,
    insns: Seq<A64InsnView>,
    insn: A64InsnView,
    reg: u32,
    value: u64,
    regs: Map<u32, u64>,
)
    requires
        registers_after(img, insns) == Ok::<Map<u32, u64>, ReadFailure>(regs),
        insn.op == A64Op::Adrp,
        insn.operands == adrp_operands(reg, value),
    ensures
        registers_after(img, insns.push(insn)) matches Ok(after) && {
            &&& after.dom().contains(reg)
            &&& after[reg] == value
            &&& same_but_for(regs, after, reg)
        },
{
    assert(insns.push(insn).drop_last() =~= insns);
}

/// `add` of an immediate number to a register itself leaves the sum in it, reduced to 64 bits, if
/// the register is known, and leaves the others alone.
pub proof fn law_add(
    img: Image,
    insns: Seq<A64InsnView>,
    insn: A64InsnView,
    reg: u32,
    value: u64,
    regs: Map<u32, u64>,
)
    requires
        registers_after(img, insns) == Ok::<Map<u32, u64>, ReadFailure>(regs),
        insn.op == A64Op::Add,
        insn.operands == add_operands(reg, value),
    ensures
        registers_after(img, insns.push(insn)) matches Ok(after) && {
            &&& after.dom().contains(reg) <==> regs.dom().contains(reg)
            &&& regs.dom().contains(reg) ==> after[reg] == (regs[reg] + value)
                % 0x1_0000_0000_0000_0000
            &&& same_but_for(regs, after, reg)
        },
{
    assert(insns.push(insn).drop_last() =~= insns);
}

/// `ldr` of a register through itself leaves the 64-bit number in it that stands where it pointed
/// to, moved by the offset, if the register is known, and leaves the others alone. It is malformed
/// to load from an address outside of the file.
pub proof fn law_ldr(
    img: Image,
    insns: Seq<A64InsnView>,
    insn: A64InsnView,
    reg: u32,
    offset: i64,
    regs: Map<u32, u64>,
)
    requires
        registers_after(img, insns) == Ok::<Map<u32, u64>, ReadFailure>(regs),
        insn.op == A64Op::Ldr,
        insn.operands == ldr_operands(reg, offset),
    ensures
        ({
            let r = registers_after(img, insns.push(insn));
            let addr = ((regs[reg] + offset) % 0x1_0000_0000_0000_0000) as u64;
            let malformed = Err::<Map<u32, u64>, ReadFailure>(ReadFailure::Malformed);
            &&& !regs.dom().contains(reg) ==> r == Ok::<Map<u32, u64>, ReadFailure>(regs)
            &&& regs.dom().contains(reg) ==> match object_file::locate(img.segments, addr) {
                Err(_) => r == malformed,
                Ok(pos) => if pos + 8 > img.data.len() {
                    r == malformed
                } else {
                    r matches Ok(after) && {
                        &&& after.dom().contains(reg)
                        &&& after[reg] == bytes::u64_at(img.data, pos as int)
                        &&& same_but_for(regs, after, reg)
                    }
                },
            }
        }),
{
    assert(insns.push(insn).drop_last() =~= insns);
    if regs.dom().contains(reg) {
        assert(regs[reg].wrapping_add_signed(offset) == ((regs[reg] + offset)
            % 0x1_0000_0000_0000_0000) as u64);
    }
}

/// Whether an instruction is an `adrp`, or an `add` or `ldr` in place, of the forms that are
/// followed.
pub open spec fn is_followed(insn: A64InsnView) -> bool {
    ||| insn.op == A64Op::Adrp && exists|reg: u32, value: u64|
        insn.operands == #[trigger] adrp_operands(reg, value)
    ||| insn.op == A64Op::Add && exists|reg: u32, value: u64|
        insn.operands == #[trigger] add_operands(reg, value)
    ||| insn.op == A64Op::Ldr && exists|reg: u32, offset: i64|
        insn.operands == #[trigger] ldr_operands(reg, offset)
}

/// Every other instruction leaves the registers alone, also an `add` or `ldr` from one register
/// into another.
pub proof fn law_unfollowed(img: Image, insns: Seq<A64InsnView>, insn: A64InsnView)
    requires
        !is_followed(insn),
    ensures
        registers_after(img, insns.push(insn)) == registers_after(img, insns),
{
    assert(insns.push(insn).drop_last() =~= insns);
    match effect(insn) {
        Effect::Page { reg, value } => {
            assert(insn.operands =~= adrp_operands(reg, value));
        },
        Effect::Offset { reg, value } => {
            assert(insn.operands =~= add_operands(reg, value));
        },
        Effect::Load { reg, offset } => {
            assert(insn.operands =~= ldr_operands(reg, offset));
        },
        Effect::Nothing => {},
    }
}

/// A failure at one instruction is the failure of every stretch that goes on from there.
pub proof fn law_registers_stay_failed(img: Image, insns: Seq<A64InsnView>, more: Seq<A64InsnView>)
    requires
        registers_after(img, insns) is Err,
    ensures
        registers_after(img, insns + more) == registers_after(img, insns),
{
    assert((insns + more).take(insns.len() as int) =~= insns);
    lemma_registers_stop(img, insns + more, insns.len() as int);
}

/// Only a `bl` with one label as its operand is a call with a target, which is the label.
pub proof fn law_bl(insn: A64InsnView, target: u64)
    ensures
        bl_target(insn) == Some(target) <==> insn.op == A64Op::Bl && insn.operands == seq![
            A64Operand::Label(A64Imm::Unsigned(target)),
        ],
{
    if bl_target(insn) == Some(target) {
        assert(insn.operands =~= seq![A64Operand::Label(A64Imm::Unsigned(target))]);
    }
}

/// Only a `blr` with one register as its operand is a call through a register, which is that one.
pub proof fn law_blr(insn: A64InsnView, reg: u32)
    ensures
        blr_register(insn) == Some(reg) <==> insn.op == A64Op::Blr && insn.operands == seq![
            A64Operand::Reg(reg),
        ],
{
    if blr_register(insn) == Some(reg) {
        assert(insn.operands =~= seq![A64Operand::Reg(reg)]);
    }
}

/// The values of instructions are their fields.
pub proof fn law_insn_views(insns: Seq<A64Insn>)
    ensures
        insn_views(insns).len() == insns.len(),
        forall|i: int|
            0 <= i < insns.len() ==> (#[trigger] insn_views(insns)[i]).op == insns[i].op
                && insn_views(insns)[i].operands == insns[i].operands@,
{
}

} // verus!
