//! x86-64 instructions, and what the n-th of a kind refers to.

use vstd::prelude::*;

use crate::bytes;
use crate::bytes::to_unsigned;

verus! {

/// An operand. The base register of a memory operand is missing where it has no name.
#[derive(Debug)]
pub enum X86Operand {
    Immediate(i64),
    Memory { base: Option<String>, disp: i64 },
    Other,
}

/// The mathematical value of an [`X86Operand`].
pub enum X86OperandView {
    Immediate(i64),
    Memory { base: Option<Seq<char>>, disp: i64 },
    Other,
}

impl View for X86Operand {
    type V = X86OperandView;

    open spec fn view(&self) -> X86OperandView {
        match *self {
            X86Operand::Immediate(value) => X86OperandView::Immediate(value),
            X86Operand::Memory { base, disp } => X86OperandView::Memory {
                base: match base {
                    Some(name) => Some(name@),
                    None => None,
                },
                disp,
            },
            X86Operand::Other => X86OperandView::Other,
        }
    }
}

/// A disassembled instruction of `len` bytes. The mnemonic and the operands are missing where
/// the disassembler does not give them.
#[derive(Debug)]
pub struct X86Insn {
    pub mnemonic: Option<String>,
    pub address: u64,
    pub len: usize,
    pub operands: Option<Vec<X86Operand>>,
}

/// The mathematical value of an [`X86Insn`].
pub struct X86InsnView {
    pub mnemonic: Option<Seq<char>>,
    pub address: u64,
    pub len: usize,
    pub operands: Option<Seq<X86OperandView>>,
}

/// The values of a list of operands.
pub open spec fn operand_views(operands: Seq<X86Operand>) -> Seq<X86OperandView> {
    operands.map_values(|o: X86Operand| o@)
}

impl View for X86Insn {
    type V = X86InsnView;

    open spec fn view(&self) -> X86InsnView {
        X86InsnView {
            mnemonic: match self.mnemonic {
                Some(name) => Some(name@),
                None => None,
            },
            address: self.address,
            len: self.len,
            operands: match self.operands {
                Some(operands) => Some(operand_views(operands@)),
                None => None,
            },
        }
    }
}

/// The values of a list of instructions.
pub open spec fn insn_views(insns: Seq<X86Insn>) -> Seq<X86InsnView> {
    insns.map_values(|i: X86Insn| i@)
}

/// Where an operand relative to the instruction pointer points to. The sum wraps around at 64
/// bits.
pub open spec fn rip_target(insn: X86InsnView, disp: i64) -> u64 {
    insn.address.wrapping_add(insn.len as u64).wrapping_add(bytes::unsigned_word(disp))
}

/// What the first operand of an instruction says.
#[derive(Clone, Copy, PartialEq, Eq, Debug, Structural)]
pub enum Reference {
    /// It refers to this address.
    Address(u64),
    /// It refers to no address.
    Elsewhere,
    /// It cannot be told.
    Unknown,
}

/// What the first operand of an instruction refers to: memory relative to the instruction
/// pointer or, where `immediate` says so, a number.
pub open spec fn reference(insn: X86InsnView, immediate: bool) -> Reference {
    match insn.operands {
        None => Reference::Unknown,
        Some(operands) => if operands.len() == 0 {
            Reference::Elsewhere
        } else {
            match operands[0] {
                X86OperandView::Immediate(value) => if immediate {
                    Reference::Address(bytes::unsigned_word(value))
                } else {
                    Reference::Elsewhere
                },
                X86OperandView::Memory { base, disp } => match base {
                    None => Reference::Unknown,
                    Some(name) => if name == "rip"@ {
                        Reference::Address(rip_target(insn, disp))
                    } else {
                        Reference::Elsewhere
                    },
                },
                _ => Reference::Elsewhere,
            }
        },
    }
}

/// The number of instructions with this mnemonic among the first `k`.
pub open spec fn occurrences(insns: Seq<X86InsnView>, mnemonic: Seq<char>, k: int) -> nat
    decreases k,
{
    if k <= 0 {
        0
    } else {
        occurrences(insns, mnemonic, k - 1) + if insns[k - 1].mnemonic == Some(mnemonic) {
            1nat
        } else {
            0nat
        }
    }
}

/// Whether the instruction at position `i` is looked at for the n-th one with this mnemonic: it
/// is that one, or it comes after it and before the next with this mnemonic.
pub open spec fn is_candidate(insns: Seq<X86InsnView>, mnemonic: Seq<char>, n: nat, i: int) -> bool {
    occurrences(insns, mnemonic, i + 1) == n
}

/// What the first candidate from position `i` on refers to that refers to an address. There is
/// none where an instruction before it has no mnemonic, or where it cannot be told of a
/// candidate before it what that refers to.
pub open spec fn nth_reference_from(
    insns: Seq<X86InsnView>,
    mnemonic: Seq<char>,
    n: nat,
    immediate: bool,
    i: int,
) -> Option<u64>
    decreases insns.len() - i,
{
    if i >= insns.len() || insns[i].mnemonic is None {
        None
    } else if !is_candidate(insns, mnemonic, n, i) {
        nth_reference_from(insns, mnemonic, n, immediate, i + 1)
    } else {
        match reference(insns[i], immediate) {
            Reference::Address(address) => Some(address),
            Reference::Elsewhere => nth_reference_from(insns, mnemonic, n, immediate, i + 1),
            Reference::Unknown => None,
        }
    }
}

/// What the n-th instruction with this mnemonic refers to, or an instruction between it and the
/// next with this mnemonic.
pub open spec fn nth_reference(
    insns: Seq<X86InsnView>,
    mnemonic: Seq<char>,
    n: nat,
    immediate: bool,
) -> Option<u64> {
    nth_reference_from(insns, mnemonic, n, immediate, 0)
}

/// What is found comes from a candidate.
pub proof fn law_nth_reference_is_of_a_candidate(
    insns: Seq<X86InsnView>,
    mnemonic: Seq<char>,
    n: nat,
    immediate: bool,
    start: int,
)
    requires
        0 <= start,
        nth_reference_from(insns, mnemonic, n, immediate, start) is Some,
    ensures
        exists|i: int|
            start <= i < insns.len() && #[trigger] is_candidate(insns, mnemonic, n, i) && reference(
                insns[i],
                immediate,
            ) == Reference::Address(
                nth_reference_from(insns, mnemonic, n, immediate, start).unwrap(),
            ),
    decreases insns.len() - start,
{
    if is_candidate(insns, mnemonic, n, start) && reference(
        insns[start],
        immediate,
    ) is Address {
    } else {
        law_nth_reference_is_of_a_candidate(insns, mnemonic, n, immediate, start + 1);
    }
}

impl X86Insn {
    /// What the first operand refers to.
    fn reference(&self, immediate: bool) -> (r: Reference)
        ensures
            r == reference(self@, immediate),
    {
        let operands = match &self.operands {
            Some(operands) => operands,
            None => return Reference::Unknown,
        };
        if operands.len() == 0 {
            return Reference::Elsewhere;
        }
        assert(operand_views(operands@)[0] == operands@[0]@);
        match &operands[0] {
            X86Operand::Immediate(value) => {
                if immediate {
                    Reference::Address(to_unsigned(*value))
                } else {
                    Reference::Elsewhere
                }
            },
            X86Operand::Memory { base, disp } => match base {
                None => Reference::Unknown,
                Some(name) => {
                    if *name == "rip".to_owned() {
                        let next: u64 = self.address.wrapping_add(self.len as u64);
                        Reference::Address(next.wrapping_add(to_unsigned(*disp)))
                    } else {
                        Reference::Elsewhere
                    }
                },
            },
            _ => Reference::Elsewhere,
        }
    }
}

/// Finds what the n-th instruction with this mnemonic refers to.
pub fn find_nth_reference(insns: &Vec<X86Insn>, mnemonic: &str, n: usize, immediate: bool) -> (r:
    Option<u64>)
    ensures
        r == nth_reference(insn_views(insns@), mnemonic@, n as nat, immediate),
{
    let ghost views = insn_views(insns@);
    let wanted: String = mnemonic.to_owned();
    let mut count: usize = 0;
    let mut i: usize = 0;
    while i < insns.len()
        invariant
            i <= insns@.len(),
            views == insn_views(insns@),
            wanted@ == mnemonic@,
            count <= i,
            count == occurrences(views, mnemonic@, i as int),
            nth_reference(views, mnemonic@, n as nat, immediate) == nth_reference_from(
                views,
                mnemonic@,
                n as nat,
                immediate,
                i as int,
            ),
        decreases insns@.len() - i,
    {
        let insn = &insns[i];
        assert(views[i as int] == insn@);
        match &insn.mnemonic {
            Some(name) => {
                if *name == wanted {
                    count += 1;
                }
            },
            None => return None,
        }
        if count == n {
            match insn.reference(immediate) {
                Reference::Address(address) => return Some(address),
                Reference::Elsewhere => {},
                Reference::Unknown => return None,
            }
        }
        i += 1;
    }
    None
}

// ---------------------------------------------------------------------------------------------
// What instructions refer to
// ---------------------------------------------------------------------------------------------

/// An instruction refers to what its first operand does: memory relative to the instruction
/// pointer is as far from the end of the instruction as the displacement says, reduced to 64
/// bits; an immediate number stands for itself where numbers count.
pub proof fn law_reference(insn: X86InsnView, operands: Seq<X86OperandView>, immediate: bool)
    requires
        insn.operands == Some(operands),
        operands.len() > 0,
    ensures
        match operands[0] {
            X86OperandView::Memory { base: Some(base), disp } => reference(insn, immediate) == if base
                == "rip"@ {
                Reference::Address(
                    ((insn.address + insn.len + disp) % 0x1_0000_0000_0000_0000) as u64,
                )
            } else {
                Reference::Elsewhere
            },
            X86OperandView::Memory { base: None, .. } => reference(insn, immediate)
                == Reference::Unknown,
            X86OperandView::Immediate(value) => reference(insn, immediate) == if immediate {
                Reference::Address((value as int % 0x1_0000_0000_0000_0000) as u64)
            } else {
                Reference::Elsewhere
            },
            X86OperandView::Other => reference(insn, immediate) == Reference::Elsewhere,
        },
{
    match operands[0] {
        X86OperandView::Memory { base: Some(base), disp } => {
            assert(rip_target(insn, disp) == (insn.address + insn.len + disp)
                % 0x1_0000_0000_0000_0000);
        },
        _ => {},
    }
}

/// An instruction without operands refers to no address; it cannot be told where they are
/// missing. Operands behind the first do not matter.
pub proof fn law_reference_ends(a: X86InsnView, b: X86InsnView, immediate: bool)
    requires
        a.address == b.address,
        a.len == b.len,
        a.operands is Some,
        b.operands is Some,
        a.operands.unwrap().len() > 0 <==> b.operands.unwrap().len() > 0,
        a.operands.unwrap().len() > 0 ==> a.operands.unwrap()[0] == b.operands.unwrap()[0],
    ensures
        reference(a, immediate) == reference(b, immediate),
        a.operands.unwrap().len() == 0 ==> reference(a, immediate) == Reference::Elsewhere,
        forall|c: X86InsnView| c.operands is None ==> #[trigger] reference(c, immediate)
            == Reference::Unknown,
{
}

/// Each instruction with the mnemonic is counted once, and no other is.
pub proof fn law_occurrences(insns: Seq<X86InsnView>, mnemonic: Seq<char>, k: int)
    requires
        0 <= k < insns.len(),
    ensures
        occurrences(insns, mnemonic, 0) == 0,
        insns[k].mnemonic == Some(mnemonic) ==> occurrences(insns, mnemonic, k + 1)
            == occurrences(insns, mnemonic, k) + 1,
        insns[k].mnemonic != Some(mnemonic) ==> occurrences(insns, mnemonic, k + 1)
            == occurrences(insns, mnemonic, k),
{
}

/// The count never falls.
proof fn lemma_occurrences_grow(insns: Seq<X86InsnView>, mnemonic: Seq<char>, a: int, b: int)
    requires
        0 <= a <= b,
    ensures
        occurrences(insns, mnemonic, a) <= occurrences(insns, mnemonic, b),
    decreases b - a,
{
    if a < b {
        lemma_occurrences_grow(insns, mnemonic, a, b - 1);
    }
}

/// The n-th instruction with the mnemonic decides where it refers to an address, whatever comes
/// before and after it, so long as everything before it has a mnemonic.
pub proof fn law_nth_reference(
    insns: Seq<X86InsnView>,
    mnemonic: Seq<char>,
    n: nat,
    immediate: bool,
    k: int,
    address: u64,
)
    requires
        0 <= k < insns.len(),
        n > 0,
        insns[k].mnemonic == Some(mnemonic),
        occurrences(insns, mnemonic, k) == n - 1,
        forall|i: int| 0 <= i < k ==> (#[trigger] insns[i]).mnemonic is Some,
        reference(insns[k], immediate) == Reference::Address(address),
    ensures
        nth_reference(insns, mnemonic, n, immediate) == Some(address),
{
    lemma_nth_reference_skips(insns, mnemonic, n, immediate, 0, k);
}

/// Nothing before the n-th instruction with the mnemonic is looked at.
proof fn lemma_nth_reference_skips(
    insns: Seq<X86InsnView>,
    mnemonic: Seq<char>,
    n: nat,
    immediate: bool,
    from: int,
    k: int,
)
    requires
        0 <= from <= k < insns.len(),
        n > 0,
        occurrences(insns, mnemonic, k) == n - 1,
        forall|i: int| 0 <= i < k ==> (#[trigger] insns[i]).mnemonic is Some,
    ensures
        nth_reference_from(insns, mnemonic, n, immediate, from) == nth_reference_from(
            insns,
            mnemonic,
            n,
            immediate,
            k,
        ),
    decreases k - from,
{
    if from < k {
        lemma_occurrences_grow(insns, mnemonic, from + 1, k);
        assert(insns[from].mnemonic is Some);
        lemma_nth_reference_skips(insns, mnemonic, n, immediate, from + 1, k);
    }
}

/// Where the n-th instruction with the mnemonic refers to no address, the instructions behind it
/// are looked at up to the next one with the mnemonic, and the first of them that refers to an
/// address decides.
pub proof fn law_nth_reference_behind(
    insns: Seq<X86InsnView>,
    mnemonic: Seq<char>,
    n: nat,
    immediate: bool,
    k: int,
    j: int,
    address: u64,
)
    requires
        0 <= k < j < insns.len(),
        n > 0,
        insns[k].mnemonic == Some(mnemonic),
        occurrences(insns, mnemonic, k) == n - 1,
        forall|i: int| 0 <= i <= j ==> (#[trigger] insns[i]).mnemonic is Some,
        forall|i: int| k < i <= j ==> (#[trigger] insns[i]).mnemonic != Some(mnemonic),
        forall|i: int|
            k <= i < j ==> reference(#[trigger] insns[i], immediate) == Reference::Elsewhere,
        reference(insns[j], immediate) == Reference::Address(address),
    ensures
        nth_reference(insns, mnemonic, n, immediate) == Some(address),
{
    lemma_nth_reference_skips(insns, mnemonic, n, immediate, 0, k);
    lemma_nth_reference_passes(insns, mnemonic, n, immediate, k, j);
}

/// What refers to no address is passed over.
proof fn lemma_nth_reference_passes(
    insns: Seq<X86InsnView>,
    mnemonic: Seq<char>,
    n: nat,
    immediate: bool,
    from: int,
    j: int,
)
    requires
        0 <= from <= j < insns.len(),
        occurrences(insns, mnemonic, from + 1) == n,
        forall|i: int| from <= i <= j ==> (#[trigger] insns[i]).mnemonic is Some,
        forall|i: int| from < i <= j ==> (#[trigger] insns[i]).mnemonic != Some(mnemonic),
        forall|i: int|
            from <= i < j ==> reference(#[trigger] insns[i], immediate) == Reference::Elsewhere,
    ensures
        occurrences(insns, mnemonic, j + 1) == n,
        nth_reference_from(insns, mnemonic, n, immediate, from) == nth_reference_from(
            insns,
            mnemonic,
            n,
            immediate,
            j,
        ),
    decreases j - from,
{
    if from < j {
        assert(insns[from].mnemonic is Some);
        assert(insns[from + 1].mnemonic != Some(mnemonic));
        assert(reference(insns[from], immediate) == Reference::Elsewhere);
        lemma_nth_reference_passes(insns, mnemonic, n, immediate, from + 1, j);
    }
}

/// Nothing is found where there are fewer instructions with the mnemonic.
pub proof fn law_nth_reference_is_missing(
    insns: Seq<X86InsnView>,
    mnemonic: Seq<char>,
    n: nat,
    immediate: bool,
)
    requires
        occurrences(insns, mnemonic, insns.len() as int) < n,
    ensures
        nth_reference(insns, mnemonic, n, immediate) is None,
{
    if nth_reference(insns, mnemonic, n, immediate) is Some {
        law_nth_reference_is_of_a_candidate(insns, mnemonic, n, immediate, 0);
        let i = choose|i: int|
            0 <= i < insns.len() && #[trigger] is_candidate(insns, mnemonic, n, i);
        lemma_occurrences_grow(insns, mnemonic, i + 1, insns.len() as int);
    }
}

/// The search gives up at an instruction without a mnemonic, and at a candidate of which it cannot
/// be told what it refers to, where it has found nothing before.
pub proof fn law_nth_reference_gives_up(
    insns: Seq<X86InsnView>,
    mnemonic: Seq<char>,
    n: nat,
    immediate: bool,
    from: int,
    k: int,
)
    requires
        0 <= from <= k < insns.len(),
        forall|i: int|
            from <= i < k ==> (#[trigger] insns[i]).mnemonic is Some && (occurrences(
                insns,
                mnemonic,
                i + 1,
            ) != n || reference(insns[i], immediate) == Reference::Elsewhere),
        insns[k].mnemonic is None || (occurrences(insns, mnemonic, k + 1) == n && reference(
            insns[k],
            immediate,
        ) == Reference::Unknown),
    ensures
        nth_reference_from(insns, mnemonic, n, immediate, from) is None,
    decreases k - from,
{
    if from < k {
        assert(insns[from].mnemonic is Some);
        law_nth_reference_gives_up(insns, mnemonic, n, immediate, from + 1, k);
    }
}

/// The values of instructions are their fields.
pub proof fn law_insn_views(insns: Seq<X86Insn>)
    ensures
        insn_views(insns).len() == insns.len(),
        forall|i: int|
            0 <= i < insns.len() ==> {
                &&& (#[trigger] insn_views(insns)[i]).address == insns[i].address
                &&& insn_views(insns)[i].len == insns[i].len
                &&& insn_views(insns)[i].mnemonic is Some <==> insns[i].mnemonic is Some
                &&& insns[i].mnemonic matches Some(name) ==> insn_views(insns)[i].mnemonic == Some(
                    name@,
                )
                &&& insn_views(insns)[i].operands is Some <==> insns[i].operands is Some
                &&& insns[i].operands matches Some(list) ==> insn_views(insns)[i].operands == Some(
                    operand_views(list@),
                )
            },
{
}

/// The value of an operand is its fields.
pub proof fn law_operand_views(operands: Seq<X86Operand>, i: int)
    requires
        0 <= i < operands.len(),
    ensures
        match operands[i] {
            X86Operand::Immediate(value) => operand_views(operands)[i]
                == X86OperandView::Immediate(value),
            X86Operand::Memory { base: Some(base), disp } => operand_views(operands)[i]
                == (X86OperandView::Memory { base: Some(base@), disp }),
            X86Operand::Memory { base: None, disp } => operand_views(operands)[i]
                == (X86OperandView::Memory { base: None, disp }),
            X86Operand::Other => operand_views(operands)[i] == X86OperandView::Other,
        },
{
}

} // verus!
