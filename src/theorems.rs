//! Facts about decoding that hold for every input: it is total on buffers
//! long enough for any instruction, it is a function of the bytes, every
//! operation of the catalog can be selected, and an all-zero buffer selects
//! the first operation of the first category, whose byte string adapts to an
//! empty host byte string.
use vstd::prelude::*;
use crate::catalog::{
    lemma_decode_wf, lemma_operands_1, lemma_signature_bound, operation_count,
    operation_count_of, signature, spec_decode, InstructionView, TypedFuzzInstructionPrototype,
    CATEGORY_COUNT, MAX_INSTRUCTION_LEN, MAX_OPERANDS_LEN,
};
use crate::codec::{le_u32, spec_choice};
use crate::host::{bytes_of, slot_holds, slots_hold, TypedFuzzInstruction, TypedModAddress};
use vstd::arithmetic::div_mod::lemma_small_mod;
use crate::operand::{
    lemma_operands_total, operands_wf, spec_operand, OperandKind, OperandView,
};

verus! {

/// A buffer that holds `n` zero bytes.
pub open spec fn zeros(n: nat) -> Seq<u8> {
    Seq::new(n, |i: int| 0u8)
}

/// Four bytes that read as the choice `x`, for `x` below 256.
pub open spec fn choice_bytes(x: int) -> Seq<u8> {
    seq![x as u8, 0u8, 0u8, 0u8]
}

/// A buffer that selects operation `op` of category `cat`: the category
/// choice, the operation choice where the category has more than one
/// operation, then zeros for the operands.
pub open spec fn selection_bytes(cat: int, op: int) -> Seq<u8> {
    if operation_count(cat) == 1 {
        choice_bytes(cat) + zeros(MAX_OPERANDS_LEN as nat)
    } else {
        choice_bytes(cat) + choice_bytes(op) + zeros(MAX_OPERANDS_LEN as nat)
    }
}

/// Decoding is total on long buffers: every buffer of at least
/// `MAX_INSTRUCTION_LEN` bytes decodes to an instruction whose operands a
/// host can represent, and the instruction takes at most
/// `MAX_INSTRUCTION_LEN` of its bytes.
pub proof fn lemma_decode_total(s: Seq<u8>)
    requires
        s.len() >= MAX_INSTRUCTION_LEN,
    ensures
        spec_decode(s) matches Some((w, r)) && operands_wf(w.operands) && s.len() - r.len()
            <= MAX_INSTRUCTION_LEN,
{
    let (cat, r) = spec_choice(s, CATEGORY_COUNT).unwrap();
    if operation_count(cat as int) == 1 {
        lemma_signature_bound(cat as int, 0);
        lemma_operands_total(signature(cat as int, 0), r);
    } else {
        let (op, r2) = spec_choice(r, operation_count(cat as int) as u32).unwrap();
        lemma_signature_bound(cat as int, op as int);
        lemma_operands_total(signature(cat as int, op as int), r2);
    }
    lemma_decode_wf(s);
}

/// Decoding is deterministic: two instructions decoded from the same bytes
/// are the same instruction.
pub proof fn lemma_decode_deterministic(
    data: Seq<u8>,
    a: TypedFuzzInstructionPrototype,
    b: TypedFuzzInstructionPrototype,
)
    requires
        spec_decode(data) matches Some((w, _)) && w == a@,
        spec_decode(data) matches Some((w, _)) && w == b@,
    ensures
        a@ == b@,
{
}

/// Every operation of the catalog is selected by some buffer, namely
/// `selection_bytes(cat, op)`.
pub proof fn lemma_catalog_coverage(cat: int, op: int)
    requires
        0 <= cat < CATEGORY_COUNT,
        0 <= op < operation_count(cat),
    ensures
        spec_decode(selection_bytes(cat, op)) matches Some((w, _)) && w.category == cat
            && w.operation == op,
{
    let s = selection_bytes(cat, op);
    let rest = s.subrange(4, s.len() as int);
    assert(spec_choice(s, CATEGORY_COUNT) == Some((cat as u32, rest)));
    lemma_signature_bound(cat, op);
    if operation_count(cat) == 1 {
        assert(rest =~= zeros(MAX_OPERANDS_LEN as nat));
        lemma_operands_total(signature(cat, 0), rest);
    } else {
        assert(op < 256);
        let rest2 = rest.subrange(4, rest.len() as int);
        assert(rest[0] == op as u8 && rest[1] == 0 && rest[2] == 0 && rest[3] == 0);
        assert(le_u32(rest) == op);
        lemma_small_mod(op as nat, operation_count(cat) as nat);
        assert(rest2 =~= zeros(MAX_OPERANDS_LEN as nat));
        assert(spec_choice(rest, operation_count(cat) as u32) == Some((op as u32, rest2)));
        lemma_operands_total(signature(cat, op), rest2);
    }
}

/// A buffer of at least `MAX_INSTRUCTION_LEN` zero bytes decodes to the first
/// operation of the first category, whose one operand is an empty byte
/// string.
pub proof fn lemma_zero_buffer(n: nat)
    requires
        n >= MAX_INSTRUCTION_LEN,
    ensures
        spec_decode(zeros(n)) matches Some((w, _)) && w == (InstructionView {
            category: 0,
            operation: 0,
            operands: seq![OperandView::Bytes(Seq::empty())],
        }),
{
    let s = zeros(n);
    let r = s.subrange(4, s.len() as int);
    let r2 = r.subrange(4, r.len() as int);
    assert(s[0] == 0 && s[1] == 0 && s[2] == 0 && s[3] == 0);
    assert(spec_choice(s, CATEGORY_COUNT) == Some((0u32, r)));
    assert(r[0] == 0 && r[1] == 0 && r[2] == 0 && r[3] == 0);
    assert(spec_choice(r, 7) == Some((0u32, r2)));
    assert(r2 =~= zeros((n - 8) as nat));
    lemma_operands_1(OperandKind::Bytes, r2);
    reveal(spec_operand);
    let r3 = r2.subrange(1, r2.len() as int);
    assert(r3.subrange(0, 0) =~= Seq::<u8>::empty());
    assert(spec_operand(OperandKind::Bytes, r2) == Some(
        (OperandView::Bytes(Seq::empty()), r3.subrange(0, r3.len() as int)),
    ));
    assert(signature(0, 0) == seq![OperandKind::Bytes]);
}

/// The instruction that an all-zero buffer decodes to adapts to the first
/// operation of the first category with an empty host byte string: this holds
/// of any `r` that meets `to_guest`'s guarantees for that instruction.
pub proof fn lemma_zero_buffer_adapts(
    n: nat,
    p: TypedFuzzInstructionPrototype,
    r: TypedFuzzInstruction,
)
    requires
        n >= MAX_INSTRUCTION_LEN,
        spec_decode(zeros(n)) matches Some((w, _)) && w == p@,
        r.category() == p@.category,
        r.operation() == p@.operation,
        slots_hold(r.slots(), p@.operands),
    ensures
        r matches TypedFuzzInstruction::Address(TypedModAddress::AccountPublicKeyToAddress(b))
            && bytes_of(b) == Seq::<u8>::empty(),
{
    lemma_zero_buffer(n);
    assert(slot_holds(r.slots()[0], p@.operands[0]));
}

/// A buffer that selects operation `op` of category `cat`.
pub fn selection_buffer(cat: u32, op: u32) -> (r: Vec<u8>)
    requires
        cat < CATEGORY_COUNT,
        op < operation_count(cat as int),
    ensures
        r@ == selection_bytes(cat as int, op as int),
{
    let mut v: Vec<u8> = Vec::new();
    v.push(cat as u8);
    v.push(0);
    v.push(0);
    v.push(0);
    if operation_count_of(cat) != 1 {
        assert(op < 256) by {
            assert(operation_count(cat as int) <= 42);
        }
        v.push(op as u8);
        v.push(0);
        v.push(0);
        v.push(0);
    }
    let ghost head = v@;
    let mut i: u32 = 0;
    while i < MAX_OPERANDS_LEN
        invariant
            i <= MAX_OPERANDS_LEN,
            v@ == head + zeros(i as nat),
        decreases MAX_OPERANDS_LEN - i,
    {
        v.push(0);
        i = i + 1;
        assert(v@ =~= head + zeros(i as nat));
    }
    assert(v@ =~= selection_bytes(cat as int, op as int));
    v
}

} // verus!
