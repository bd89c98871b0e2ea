//! Adaptation of a decoded instruction to the call that a host environment
//! accepts: byte strings, texts, symbols, addresses, sequences and maps become
//! host objects of the given environment, generic values become their raw
//! host payload, and integers pass through unchanged.
//!
//! Creating a host object panics only when the host itself fails, for
//! instance when its budget is exhausted; the run loop resets the budget to
//! unlimited before each run.
use vstd::prelude::*;
use soroban_sdk::xdr::{ContractId, ScAddress};
use soroban_sdk::{
    Address, Bytes, Duration, Env, IntoVal, Symbol, Timepoint, TryFromVal, Val, I256, U256,
};
use crate::catalog::{
    TypedFuzzInstructionPrototype, TypedModAddressPrototype, TypedModBufPrototype,
    TypedModCallPrototype, TypedModContextPrototype, TypedModCryptoPrototype,
    TypedModIntPrototype, TypedModLedgerPrototype, TypedModMapPrototype, TypedModPrngPrototype,
    TypedModVecPrototype,
};
use crate::operand::{
    entries_wf, operand_wf, operands_wf, vals_wf, AddressProto, BytesProto, OperandView,
    StringProto, SymbolProto, ValMapProto, ValVecProto,
};
use crate::value::{
    leaf_entries_view, leaf_entries_wf, leaf_wf, leaves_view, leaves_wf, val_wf, valid_symbol,
    LeafVal, LeafView, ValProto, ValView, ADDRESS_LEN,
};

verus! {

#[verifier::external_type_specification]
#[verifier::external_body]
pub struct ExEnv(Env);

#[verifier::external_type_specification]
#[verifier::external_body]
pub struct ExVal(Val);

#[verifier::external_type_specification]
#[verifier::external_body]
pub struct ExBytes(Bytes);

#[verifier::external_type_specification]
#[verifier::external_body]
pub struct ExSorobanString(soroban_sdk::String);

#[verifier::external_type_specification]
#[verifier::external_body]
pub struct ExSymbol(Symbol);

#[verifier::external_type_specification]
#[verifier::external_body]
pub struct ExAddress(Address);

#[verifier::external_type_specification]
#[verifier::external_body]
pub struct ExTimepoint(Timepoint);

#[verifier::external_type_specification]
#[verifier::external_body]
pub struct ExDuration(Duration);

#[verifier::external_type_specification]
#[verifier::external_body]
pub struct ExU256(U256);

#[verifier::external_type_specification]
#[verifier::external_body]
pub struct ExI256(I256);

#[verifier::external_type_specification]
#[verifier::external_body]
#[verifier::reject_recursive_types(T)]
pub struct ExSorobanVec<T>(soroban_sdk::Vec<T>);

#[verifier::external_type_specification]
#[verifier::external_body]
#[verifier::reject_recursive_types(K)]
#[verifier::reject_recursive_types(V)]
pub struct ExSorobanMap<K, V>(soroban_sdk::Map<K, V>);

/// The raw 64-bit encoding of a host value: its body above an 8-bit tag.
pub uninterp spec fn val_bits(v: Val) -> u64;

/// The bytes that a host byte string holds.
pub uninterp spec fn bytes_of(b: Bytes) -> Seq<u8>;

/// The bytes that a host text holds.
pub uninterp spec fn text_of(s: soroban_sdk::String) -> Seq<u8>;

/// The characters that a host symbol holds.
pub uninterp spec fn symbol_of(s: Symbol) -> Seq<u8>;

/// The 32-byte identifier of the contract that a host address names.
pub uninterp spec fn contract_id_of(a: Address) -> Seq<u8>;

/// The values that a host vector holds, in order.
pub uninterp spec fn vec_items(v: soroban_sdk::Vec<Val>) -> Seq<Val>;

/// The tag of a raw encoding: its low eight bits.
pub open spec fn tag_of(bits: u64) -> int {
    bits as int % 256
}

/// True of the raw encoding of a host value that holds the plain value `l`.
/// Small values are encoded in place; values that may not fit are either
/// encoded in place or are a handle to a host object, told apart by the tag.
pub open spec fn leaf_encodes(bits: u64, l: LeafView) -> bool {
    match l {
        LeafView::Void => bits == 2,
        LeafView::Bool(b) => bits == if b {
            1u64
        } else {
            0u64
        },
        LeafView::Error(t, c) => bits as int == c as int * 0x1_0000_0000 + t as int * 256 + 3,
        LeafView::U32(x) => bits as int == x as int * 0x1_0000_0000 + 4,
        LeafView::I32(x) => bits as int == (x as u32) as int * 0x1_0000_0000 + 5,
        LeafView::U64(_) => tag_of(bits) == 6 || tag_of(bits) == 64,
        LeafView::I64(_) => tag_of(bits) == 7 || tag_of(bits) == 65,
        LeafView::U128(_) => tag_of(bits) == 10 || tag_of(bits) == 68,
        LeafView::I128(_) => tag_of(bits) == 11 || tag_of(bits) == 69,
        LeafView::U256(..) => tag_of(bits) == 70,
        LeafView::I256(..) => tag_of(bits) == 71,
        LeafView::Bytes(_) => tag_of(bits) == 72,
        LeafView::String(_) => tag_of(bits) == 73,
        LeafView::Symbol(_) => tag_of(bits) == 14 || tag_of(bits) == 74,
        LeafView::Address(_) => tag_of(bits) == 77,
        LeafView::Timepoint(_) => tag_of(bits) == 8 || tag_of(bits) == 66,
        LeafView::Duration(_) => tag_of(bits) == 9 || tag_of(bits) == 67,
    }
}

/// True of the raw encoding of a host value that holds the generic value `v`.
pub open spec fn val_encodes(bits: u64, v: ValView) -> bool {
    match v {
        ValView::Leaf(l) => leaf_encodes(bits, l),
        ValView::Vec(_) => tag_of(bits) == 75,
        ValView::Table(_) => tag_of(bits) == 76,
    }
}

/// True of host values that hold the plain values `ls`, one for one.
pub open spec fn leaves_encoded(items: Seq<Val>, ls: Seq<LeafView>) -> bool {
    items.len() == ls.len() && forall|i: int|
        0 <= i < items.len() ==> leaf_encodes(val_bits(#[trigger] items[i]), ls[i])
}

/// True of host values that hold the generic values `vs`, one for one.
pub open spec fn vals_encoded(items: Seq<Val>, vs: Seq<ValView>) -> bool {
    items.len() == vs.len() && forall|i: int|
        0 <= i < items.len() ==> val_encodes(val_bits(#[trigger] items[i]), vs[i])
}

/// Relies on `soroban_sdk::Bytes::from_slice`: a host byte string in `env`
/// holding `bytes`.
#[verifier::external_body]
fn host_bytes(env: &Env, bytes: &[u8]) -> (r: Bytes)
    ensures
        bytes_of(r) == bytes@,
{
    Bytes::from_slice(env, bytes)
}

/// Relies on `soroban_sdk::String::from_bytes`: a host text in `env` holding
/// `bytes`.
#[verifier::external_body]
fn host_string(env: &Env, bytes: &[u8]) -> (r: soroban_sdk::String)
    ensures
        text_of(r) == bytes@,
{
    soroban_sdk::String::from_bytes(env, bytes)
}

/// Relies on `soroban_sdk::Symbol::new`, which panics unless the text is at
/// most 32 characters of `a-zA-Z0-9_` (ASCII, so the bytes are valid UTF-8):
/// the symbol of those characters.
#[verifier::external_body]
fn host_symbol(env: &Env, chars: &[u8]) -> (r: Symbol)
    requires
        valid_symbol(chars@),
    ensures
        symbol_of(r) == chars@,
{
    Symbol::new(env, core::str::from_utf8(chars).unwrap())
}

/// Relies on `soroban_sdk::Address::try_from_val` of a contract `ScAddress`:
/// the address of the contract whose 32-byte identifier is given.
#[verifier::external_body]
fn host_address(env: &Env, contract_id: &[u8]) -> (r: Address)
    requires
        contract_id@.len() == ADDRESS_LEN,
    ensures
        contract_id_of(r) == contract_id@,
{
    let id: [u8; 32] = contract_id.try_into().unwrap();
    let contract = ScAddress::Contract(ContractId(soroban_sdk::xdr::Hash(id)));
    Address::try_from_val(env, &contract).unwrap()
}

/// Relies on `soroban_sdk::Vec::new`: an empty host vector in `env`.
#[verifier::external_body]
fn host_vec_new(env: &Env) -> (r: soroban_sdk::Vec<Val>)
    ensures
        vec_items(r) == Seq::<Val>::empty(),
{
    soroban_sdk::Vec::new(env)
}

/// Relies on `soroban_sdk::Vec::push_back`: appends `x` to the host vector.
#[verifier::external_body]
fn host_vec_push(v: &mut soroban_sdk::Vec<Val>, x: Val)
    ensures
        vec_items(*final(v)) == vec_items(*old(v)).push(x),
{
    v.push_back(x)
}

/// Relies on `soroban_sdk::Map::new`: an empty host map in `env`.
#[verifier::external_body]
fn host_map_new(env: &Env) -> soroban_sdk::Map<Val, Val> {
    soroban_sdk::Map::new(env)
}

/// Relies on `soroban_sdk::Map::set`: maps `k` to `v` in the host map. Which
/// entry that replaces depends on how the host orders values, which no name
/// here describes, so nothing is stated of the map's contents.
#[verifier::external_body]
fn host_map_set(m: &mut soroban_sdk::Map<Val, Val>, k: Val, v: Val) {
    m.set(k, v)
}

/// Relies on `soroban_sdk::Timepoint::from_unix`: a host time point.
#[verifier::external_body]
fn host_timepoint(env: &Env, seconds: u64) -> Timepoint {
    Timepoint::from_unix(env, seconds)
}

/// Relies on `soroban_sdk::Duration::from_seconds`: a host duration.
#[verifier::external_body]
fn host_duration(env: &Env, seconds: u64) -> Duration {
    Duration::from_seconds(env, seconds)
}

/// Relies on `soroban_sdk::U256::from_parts`: a host 256-bit unsigned
/// integer object.
#[verifier::external_body]
fn host_u256(env: &Env, hi_hi: u64, hi_lo: u64, lo_hi: u64, lo_lo: u64) -> U256 {
    U256::from_parts(env, hi_hi, hi_lo, lo_hi, lo_lo)
}

/// Relies on `soroban_sdk::I256::from_parts`: a host 256-bit signed integer
/// object.
#[verifier::external_body]
fn host_i256(env: &Env, hi_hi: i64, hi_lo: u64, lo_hi: u64, lo_lo: u64) -> I256 {
    I256::from_parts(env, hi_hi, hi_lo, lo_hi, lo_lo)
}

/// Relies on `Val::VOID`: the unit value, encoded with body 0 and tag 2.
#[verifier::external_body]
fn val_void() -> (r: Val)
    ensures
        val_bits(r) == 2,
{
    Val::VOID.into()
}

/// Relies on `Val::from_payload`: the host value with the given raw encoding.
#[verifier::external_body]
fn val_from_payload(bits: u64) -> (r: Val)
    ensures
        val_bits(r) == bits,
{
    Val::from_payload(bits)
}

/// Relies on `From<bool> for Val`: body 0, tag 1 for true and 0 for false.
#[verifier::external_body]
fn val_from_bool(env: &Env, x: bool) -> (r: Val)
    ensures
        val_bits(r) == if x {
            1u64
        } else {
            0u64
        },
{
    x.into_val(env)
}

/// Relies on `From<u32> for Val`: `x` in the upper 32 bits, tag 4.
#[verifier::external_body]
fn val_from_u32(env: &Env, x: u32) -> (r: Val)
    ensures
        val_bits(r) as int == x as int * 0x1_0000_0000 + 4,
{
    x.into_val(env)
}

/// Relies on `From<i32> for Val`: the bits of `x` in the upper 32 bits, tag 5.
#[verifier::external_body]
fn val_from_i32(env: &Env, x: i32) -> (r: Val)
    ensures
        val_bits(r) as int == (x as u32) as int * 0x1_0000_0000 + 5,
{
    x.into_val(env)
}

/// Relies on the `TryFromVal<Env, u64>` impl for `Val`: a small value in place
/// (tag 6) when it fits, else a host object (tag 64).
#[verifier::external_body]
fn val_from_u64(env: &Env, x: u64) -> (r: Val)
    ensures
        tag_of(val_bits(r)) == 6 || tag_of(val_bits(r)) == 64,
{
    x.into_val(env)
}

/// Relies on the `TryFromVal<Env, i64>` impl for `Val`: a small value in place
/// (tag 7) when it fits, else a host object (tag 65).
#[verifier::external_body]
fn val_from_i64(env: &Env, x: i64) -> (r: Val)
    ensures
        tag_of(val_bits(r)) == 7 || tag_of(val_bits(r)) == 65,
{
    x.into_val(env)
}

/// Relies on the `TryFromVal<Env, u128>` impl for `Val`: a small value in place
/// (tag 10) when it fits, else a host object (tag 68).
#[verifier::external_body]
fn val_from_u128(env: &Env, x: u128) -> (r: Val)
    ensures
        tag_of(val_bits(r)) == 10 || tag_of(val_bits(r)) == 68,
{
    x.into_val(env)
}

/// Relies on the `TryFromVal<Env, i128>` impl for `Val`: a small value in place
/// (tag 11) when it fits, else a host object (tag 69).
#[verifier::external_body]
fn val_from_i128(env: &Env, x: i128) -> (r: Val)
    ensures
        tag_of(val_bits(r)) == 11 || tag_of(val_bits(r)) == 69,
{
    x.into_val(env)
}

/// Relies on `Bytes::to_val`: a handle to the byte string object (tag 72).
#[verifier::external_body]
fn val_from_bytes(x: &Bytes) -> (r: Val)
    ensures
        tag_of(val_bits(r)) == 72,
{
    x.to_val()
}

/// Relies on `soroban_sdk::String::to_val`: a handle to the text object (tag 73).
#[verifier::external_body]
fn val_from_string(x: &soroban_sdk::String) -> (r: Val)
    ensures
        tag_of(val_bits(r)) == 73,
{
    x.to_val()
}

/// Relies on `Symbol::to_val`: a small symbol in place (tag 14) or a symbol object (tag 74).
#[verifier::external_body]
fn val_from_symbol(x: &Symbol) -> (r: Val)
    ensures
        tag_of(val_bits(r)) == 14 || tag_of(val_bits(r)) == 74,
{
    x.to_val()
}

/// Relies on `Address::to_val`: a handle to the address object (tag 77).
#[verifier::external_body]
fn val_from_address(x: &Address) -> (r: Val)
    ensures
        tag_of(val_bits(r)) == 77,
{
    x.to_val()
}

/// Relies on `Timepoint::to_val`: a small value in place (tag 8) or an object (tag 66).
#[verifier::external_body]
fn val_from_timepoint(x: &Timepoint) -> (r: Val)
    ensures
        tag_of(val_bits(r)) == 8 || tag_of(val_bits(r)) == 66,
{
    x.to_val()
}

/// Relies on `Duration::to_val`: a small value in place (tag 9) or an object (tag 67).
#[verifier::external_body]
fn val_from_duration(x: &Duration) -> (r: Val)
    ensures
        tag_of(val_bits(r)) == 9 || tag_of(val_bits(r)) == 67,
{
    x.to_val()
}

/// Relies on `U256::to_val`: a handle to the 256-bit unsigned integer object (tag 70).
#[verifier::external_body]
fn val_from_u256(x: &U256) -> (r: Val)
    ensures
        tag_of(val_bits(r)) == 70,
{
    x.to_val()
}

/// Relies on `I256::to_val`: a handle to the 256-bit signed integer object (tag 71).
#[verifier::external_body]
fn val_from_i256(x: &I256) -> (r: Val)
    ensures
        tag_of(val_bits(r)) == 71,
{
    x.to_val()
}

/// Relies on `soroban_sdk::Vec::to_val`: a handle to the vector object (tag 75).
#[verifier::external_body]
fn val_from_vec(x: &soroban_sdk::Vec<Val>) -> (r: Val)
    ensures
        tag_of(val_bits(r)) == 75,
{
    x.to_val()
}

/// Relies on `soroban_sdk::Map::to_val`: a handle to the map object (tag 76).
#[verifier::external_body]
fn val_from_map(x: &soroban_sdk::Map<Val, Val>) -> (r: Val)
    ensures
        tag_of(val_bits(r)) == 76,
{
    x.to_val()
}

/// Relies on `Val::get_payload`: the raw 64-bit encoding of a host value.
#[verifier::external_body]
fn val_payload(v: &Val) -> (r: u64)
    ensures
        r == val_bits(*v),
{
    v.get_payload()
}

/// A generic host value, carried as its raw encoding.
#[derive(Clone, Copy, Debug, PartialEq, Eq, Structural)]
pub struct FakeVal(pub u64);

/// What an operand slot holds after adaptation.
pub enum Slot {
    /// An integer, passed through unchanged.
    Scalar(int),
    /// A host byte string with these bytes.
    Bytes(Seq<u8>),
    /// A host text with these bytes.
    String(Seq<u8>),
    /// A host symbol with these characters.
    Symbol(Seq<u8>),
    /// A host address of the contract with this identifier.
    Address(Seq<u8>),
    /// The raw encoding of a generic host value.
    Val(u64),
    /// A host vector with these values.
    Vec(Seq<Val>),
    /// A host map.
    Table,
}

/// True of a slot that holds what operand `o` held.
pub open spec fn slot_holds(slot: Slot, o: OperandView) -> bool {
    match o {
        OperandView::U32(x) => slot == Slot::Scalar(x as int),
        OperandView::U64(x) => slot == Slot::Scalar(x as int),
        OperandView::I64(x) => slot == Slot::Scalar(x as int),
        OperandView::U128(x) => slot == Slot::Scalar(x as int),
        OperandView::I128(x) => slot == Slot::Scalar(x as int),
        OperandView::Bytes(b) => slot == Slot::Bytes(b),
        OperandView::String(b) => slot == Slot::String(b),
        OperandView::Symbol(c) => slot == Slot::Symbol(c),
        OperandView::Address(a) => slot == Slot::Address(a),
        OperandView::Val(v) => slot matches Slot::Val(bits) && val_encodes(bits, v),
        OperandView::ValVec(vs) => slot matches Slot::Vec(items) && vals_encoded(items, vs),
        OperandView::ValMap(_) => slot == Slot::Table,
    }
}

/// True of slots that hold what the operands `ops` held, one for one.
pub open spec fn slots_hold(slots: Seq<Slot>, ops: Seq<OperandView>) -> bool {
    slots.len() == ops.len() && forall|i: int|
        0 <= i < slots.len() ==> slot_holds(#[trigger] slots[i], ops[i])
}

proof fn lemma_slots_hold_1(s0: Slot, o0: OperandView)
    requires
        slot_holds(s0, o0),
    ensures
        slots_hold(seq![s0], seq![o0]),
{
    let ss = seq![s0];
    let oo = seq![o0];
    assert forall|i: int| 0 <= i < 1 implies slot_holds(#[trigger] ss[i], oo[i]) by {
    }
}

proof fn lemma_slots_hold_2(s0: Slot, o0: OperandView, s1: Slot, o1: OperandView)
    requires
        slot_holds(s0, o0),
        slot_holds(s1, o1),
    ensures
        slots_hold(seq![s0, s1], seq![o0, o1]),
{
    let ss = seq![s0, s1];
    let oo = seq![o0, o1];
    assert forall|i: int| 0 <= i < 2 implies slot_holds(#[trigger] ss[i], oo[i]) by {
        if i == 0 {
        } else {
        }
    }
}

proof fn lemma_slots_hold_3(
    s0: Slot,
    o0: OperandView,
    s1: Slot,
    o1: OperandView,
    s2: Slot,
    o2: OperandView,
)
    requires
        slot_holds(s0, o0),
        slot_holds(s1, o1),
        slot_holds(s2, o2),
    ensures
        slots_hold(seq![s0, s1, s2], seq![o0, o1, o2]),
{
    let ss = seq![s0, s1, s2];
    let oo = seq![o0, o1, o2];
    assert forall|i: int| 0 <= i < 3 implies slot_holds(#[trigger] ss[i], oo[i]) by {
        if i == 0 {
        } else if i == 1 {
        } else {
        }
    }
}

proof fn lemma_slots_hold_4(
    s0: Slot,
    o0: OperandView,
    s1: Slot,
    o1: OperandView,
    s2: Slot,
    o2: OperandView,
    s3: Slot,
    o3: OperandView,
)
    requires
        slot_holds(s0, o0),
        slot_holds(s1, o1),
        slot_holds(s2, o2),
        slot_holds(s3, o3),
    ensures
        slots_hold(seq![s0, s1, s2, s3], seq![o0, o1, o2, o3]),
{
    let ss = seq![s0, s1, s2, s3];
    let oo = seq![o0, o1, o2, o3];
    assert forall|i: int| 0 <= i < 4 implies slot_holds(#[trigger] ss[i], oo[i]) by {
        if i == 0 {
        } else if i == 1 {
        } else if i == 2 {
        } else {
        }
    }
}

fn adapt_bytes(env: &Env, x: &BytesProto) -> (r: Bytes)
    ensures
        bytes_of(r) == x.bytes@,
{
    host_bytes(env, x.bytes.as_slice())
}

fn adapt_string(env: &Env, x: &StringProto) -> (r: soroban_sdk::String)
    ensures
        text_of(r) == x.bytes@,
{
    host_string(env, x.bytes.as_slice())
}

fn adapt_symbol(env: &Env, x: &SymbolProto) -> (r: Symbol)
    requires
        valid_symbol(x.chars@),
    ensures
        symbol_of(r) == x.chars@,
{
    host_symbol(env, x.chars.as_slice())
}

fn adapt_address(env: &Env, x: &AddressProto) -> (r: Address)
    requires
        x.contract_id@.len() == ADDRESS_LEN,
    ensures
        contract_id_of(r) == x.contract_id@,
{
    host_address(env, x.contract_id.as_slice())
}

/// Places a plain value in the host environment.
pub fn leaf_to_host(env: &Env, l: &LeafVal) -> (r: Val)
    requires
        leaf_wf(l@),
    ensures
        leaf_encodes(val_bits(r), l@),
{
    match l {
        LeafVal::Void => val_void(),
        LeafVal::Bool(b) => val_from_bool(env, *b),
        LeafVal::Error(t, c) => {
            let bits: u64 = *c as u64 * 0x1_0000_0000 + *t as u64 * 256 + 3;
            val_from_payload(bits)
        },
        LeafVal::U32(x) => val_from_u32(env, *x),
        LeafVal::I32(x) => val_from_i32(env, *x),
        LeafVal::U64(x) => val_from_u64(env, *x),
        LeafVal::I64(x) => val_from_i64(env, *x),
        LeafVal::U128(x) => val_from_u128(env, *x),
        LeafVal::I128(x) => val_from_i128(env, *x),
        LeafVal::U256(a, b, c, d) => val_from_u256(&host_u256(env, *a, *b, *c, *d)),
        LeafVal::I256(a, b, c, d) => val_from_i256(&host_i256(env, *a, *b, *c, *d)),
        LeafVal::Bytes(b) => val_from_bytes(&host_bytes(env, b.as_slice())),
        LeafVal::String(b) => val_from_string(&host_string(env, b.as_slice())),
        LeafVal::Symbol(c) => val_from_symbol(&host_symbol(env, c.as_slice())),
        LeafVal::Address(a) => val_from_address(&host_address(env, a.as_slice())),
        LeafVal::Timepoint(s) => val_from_timepoint(&host_timepoint(env, *s)),
        LeafVal::Duration(s) => val_from_duration(&host_duration(env, *s)),
    }
}

/// A host vector of the plain values `ls`.
fn leaves_to_host(env: &Env, ls: &Vec<LeafVal>) -> (r: soroban_sdk::Vec<Val>)
    requires
        leaves_wf(leaves_view(ls@)),
    ensures
        leaves_encoded(vec_items(r), leaves_view(ls@)),
{
    let mut out = host_vec_new(env);
    let mut i: usize = 0;
    while i < ls.len()
        invariant
            i <= ls@.len(),
            leaves_wf(leaves_view(ls@)),
            leaves_encoded(vec_items(out), leaves_view(ls@.subrange(0, i as int))),
        decreases ls@.len() - i,
    {
        assert(leaf_wf(leaves_view(ls@)[i as int]));
        let v = leaf_to_host(env, &ls[i]);
        let ghost before = vec_items(out);
        host_vec_push(&mut out, v);
        i = i + 1;
        proof {
            let done = leaves_view(ls@.subrange(0, i as int));
            assert(done =~= leaves_view(ls@.subrange(0, i - 1)).push(ls@[i - 1]@));
            assert forall|j: int| 0 <= j < vec_items(out).len() implies leaf_encodes(
                val_bits(#[trigger] vec_items(out)[j]),
                done[j],
            ) by {
                if j < before.len() {
                    assert(vec_items(out)[j] == before[j]);
                }
            }
        }
    }
    assert(ls@.subrange(0, i as int) =~= ls@);
    out
}

/// A host map of the pairs of plain values `es`.
fn leaf_entries_to_host(env: &Env, es: &Vec<(LeafVal, LeafVal)>) -> soroban_sdk::Map<Val, Val>
    requires
        leaf_entries_wf(leaf_entries_view(es@)),
{
    let mut out = host_map_new(env);
    let mut i: usize = 0;
    while i < es.len()
        invariant
            leaf_entries_wf(leaf_entries_view(es@)),
        decreases es@.len() - i,
    {
        assert(leaf_wf(leaf_entries_view(es@)[i as int].0));
        let k = leaf_to_host(env, &es[i].0);
        let v = leaf_to_host(env, &es[i].1);
        host_map_set(&mut out, k, v);
        i = i + 1;
    }
    out
}

/// Places a generic value in the host environment.
pub fn val_to_host(env: &Env, v: &ValProto) -> (r: Val)
    requires
        val_wf(v@),
    ensures
        val_encodes(val_bits(r), v@),
{
    match v {
        ValProto::Leaf(l) => leaf_to_host(env, l),
        ValProto::Vec(ls) => val_from_vec(&leaves_to_host(env, ls)),
        ValProto::Table(es) => val_from_map(&leaf_entries_to_host(env, es)),
    }
}

fn adapt_val(env: &Env, v: &ValProto) -> (r: FakeVal)
    requires
        val_wf(v@),
    ensures
        val_encodes(r.0, v@),
{
    FakeVal(val_payload(&val_to_host(env, v)))
}

fn adapt_val_vec(env: &Env, x: &ValVecProto) -> (r: soroban_sdk::Vec<Val>)
    requires
        vals_wf(x.items_view()),
    ensures
        vals_encoded(vec_items(r), x.items_view()),
{
    let mut out = host_vec_new(env);
    let mut i: usize = 0;
    while i < x.items.len()
        invariant
            i <= x.items@.len(),
            vals_wf(x.items_view()),
            vals_encoded(vec_items(out), x.items_view().subrange(0, i as int)),
        decreases x.items@.len() - i,
    {
        assert(val_wf(x.items_view()[i as int]));
        let v = val_to_host(env, &x.items[i]);
        let ghost before = vec_items(out);
        host_vec_push(&mut out, v);
        i = i + 1;
        proof {
            let done = x.items_view().subrange(0, i as int);
            assert forall|j: int| 0 <= j < vec_items(out).len() implies val_encodes(
                val_bits(#[trigger] vec_items(out)[j]),
                done[j],
            ) by {
                if j < before.len() {
                    assert(vec_items(out)[j] == before[j]);
                }
            }
        }
    }
    assert(x.items_view().subrange(0, i as int) =~= x.items_view());
    out
}

fn adapt_val_map(env: &Env, x: &ValMapProto) -> soroban_sdk::Map<Val, Val>
    requires
        entries_wf(x.entries_view()),
{
    let mut out = host_map_new(env);
    let mut i: usize = 0;
    while i < x.entries.len()
        invariant
            entries_wf(x.entries_view()),
        decreases x.entries@.len() - i,
    {
        assert(val_wf(x.entries_view()[i as int].0));
        let k = val_to_host(env, &x.entries[i].0);
        let v = val_to_host(env, &x.entries[i].1);
        host_map_set(&mut out, k, v);
        i = i + 1;
    }
    out
}

/// An instruction in the form the host's call entry point accepts.
#[derive(Debug)]
pub enum TypedFuzzInstruction {
    Address(TypedModAddress),
    Buf(TypedModBuf),
    Call(TypedModCall),
    Context(TypedModContext),
    Crypto(TypedModCrypto),
    Int(TypedModInt),
    Ledger(TypedModLedger),
    Maps(TypedModMap),
    Prng(TypedModPrng),
    Test,
    Vec(TypedModVec),
}

/// The address operations, with host-native operands.
#[derive(Debug)]
pub enum TypedModAddress {
    AccountPublicKeyToAddress(Bytes),
    AddressToAccountPublicKey(Address),
    AddressToContractId(Address),
    AuthorizeAsCurrContract(soroban_sdk::Vec<Val>),
    ContractIdToAddress(Bytes),
    RequireAuth(Address),
    RequireAuthForArgs(Address, soroban_sdk::Vec<Val>),
}

/// The buf operations, with host-native operands.
#[derive(Debug)]
pub enum TypedModBuf {
    BytesAppend(Bytes, Bytes),
    BytesBack(Bytes),
    BytesCopyFromLinearMemory(Bytes, u32, u32, u32),
    BytesCopyToLinearMemory(Bytes, u32, u32, u32),
    BytesDel(Bytes, u32),
    BytesFront(Bytes),
    BytesGet(Bytes, u32),
    BytesInsert(Bytes, u32, u32),
    BytesLen(Bytes),
    BytesNew,
    BytesNewFromLinearMemory(u32, u32),
    BytesPop(Bytes),
    BytesPush(Bytes, u32),
    BytesPut(Bytes, u32, u32),
    BytesSlice(Bytes, u32, u32),
    DeserializeFromBytes(Bytes),
    SerializeToBytes(FakeVal),
    StringCopyToLinearMemory(soroban_sdk::String, u32, u32, u32),
    StringLen(soroban_sdk::String),
    StringNewFromLinearMemory(u32, u32),
    SymbolCopyToLinearMemory(Symbol, u32, u32, u32),
    SymbolIndexInLinearMemory(Symbol, u32, u32),
    SymbolLen(Symbol),
    SymbolNewFromLinearMemory(u32, u32),
}

/// The call operations, with host-native operands.
#[derive(Debug)]
pub enum TypedModCall {
    Call(Address, Symbol, soroban_sdk::Vec<Val>),
    TryCall(Address, Symbol, soroban_sdk::Vec<Val>),
}

/// The context operations, with host-native operands.
#[derive(Debug)]
pub enum TypedModContext {
    ContractEvent(soroban_sdk::Vec<Val>, FakeVal),
    FailWithError(FakeVal),
    GetCurrentCallStack,
    GetCurrentContractAddress,
    GetInvokingContract,
    GetLedgerNetworkId,
    GetLedgerSequence,
    GetLedgerTimestamp,
    GetLedgerVersion,
    LogFromLinearMemory(u32, u32, u32, u32),
    ObjCmp(FakeVal, FakeVal),
}

/// The crypto operations, with host-native operands.
#[derive(Debug)]
pub enum TypedModCrypto {
    ComputeHashKeccak256(Bytes),
    ComputeHashSha256(Bytes),
    RecoverKeyEcdsaSecp256k1(Bytes, Bytes, u32),
    VerifySigEd25519(Bytes, Bytes, Bytes),
}

/// The int operations, with host-native operands.
#[derive(Debug)]
pub enum TypedModInt {
    DurationObjFromU64(u64),
    DurationObjToU64(FakeVal),
    I256Add(FakeVal, FakeVal),
    I256Div(FakeVal, FakeVal),
    I256Mul(FakeVal, FakeVal),
    I256ObjFromBeBytes(Bytes),
    I256ObjToBeBytes(FakeVal),
    I256Pow(FakeVal, u32),
    I256Shl(FakeVal, u32),
    I256Shr(FakeVal, u32),
    I256Sub(FakeVal, FakeVal),
    ObjFromI64(i64),
    ObjFromI128Pieces(i64, u64),
    ObjFromI256Pieces(i64, u64, u64, u64),
    ObjFromU64(u64),
    ObjFromU128Pieces(u64, u64),
    ObjFromU256Pieces(u64, u64, u64, u64),
    ObjToI64(i64),
    ObjToI128Hi64(i128),
    ObjToI128Lo64(i128),
    ObjToI256HiHi(FakeVal),
    ObjToI256HiLo(FakeVal),
    ObjToI256LoHi(FakeVal),
    ObjToI256LoLo(FakeVal),
    ObjToU64(u64),
    ObjToU128Hi64(u128),
    ObjToU128Lo64(u128),
    ObjToU256HiHi(FakeVal),
    ObjToU256HiLo(FakeVal),
    ObjToU256LoHi(FakeVal),
    ObjToU256LoLo(FakeVal),
    TimepointObjFromU64(u64),
    TimepointObjToU64(FakeVal),
    U256Add(FakeVal, FakeVal),
    U256Div(FakeVal, FakeVal),
    U256Mul(FakeVal, FakeVal),
    U256ValFromBeBytes(Bytes),
    U256ValToBeBytes(FakeVal),
    U256Pow(FakeVal, u32),
    U256Shl(FakeVal, u32),
    U256Shr(FakeVal, u32),
    U256Sub(FakeVal, FakeVal),
}

/// The ledger operations, with host-native operands.
#[derive(Debug)]
pub enum TypedModLedger {
    BumpContractData(FakeVal, u32),
    CreateAssetContract(Bytes),
    CreateContract(Address, Bytes, Bytes),
    DelContractData(FakeVal),
    GetAssetContractId(Bytes),
    GetContractData(FakeVal),
    GetContractId(Address, Bytes),
    HasContractData(FakeVal),
    PutContractData(FakeVal, FakeVal, FakeVal),
    UpdateCurrentContractWasm(Bytes),
    UploadWasm(Bytes),
}

/// The map operations, with host-native operands.
#[derive(Debug)]
pub enum TypedModMap {
    MapDel(soroban_sdk::Map<Val, Val>, FakeVal),
    MapGet(soroban_sdk::Map<Val, Val>, FakeVal),
    MapHas(soroban_sdk::Map<Val, Val>, FakeVal),
    MapKeys(soroban_sdk::Map<Val, Val>),
    MapLen(soroban_sdk::Map<Val, Val>),
    MapMaxKey(soroban_sdk::Map<Val, Val>),
    MapMinKey(soroban_sdk::Map<Val, Val>),
    MapNew,
    MapNewFromLinearMemory(u32, u32, u32),
    MapNextKey(soroban_sdk::Map<Val, Val>, FakeVal),
    MapPrevKey(soroban_sdk::Map<Val, Val>, FakeVal),
    MapPut(soroban_sdk::Map<Val, Val>, FakeVal, FakeVal),
    MapUnpackToLinearMemory(soroban_sdk::Map<Val, Val>, u32, u32, u32),
    MapValues(soroban_sdk::Map<Val, Val>),
}

/// The prng operations, with host-native operands.
#[derive(Debug)]
pub enum TypedModPrng {
    PrngBytesNew(u32),
    PrngReseed(Bytes),
    PrngU64InInclusiveRange(u64, u64),
    PrngVecShuffle(soroban_sdk::Vec<Val>),
}

/// The vec operations, with host-native operands.
#[derive(Debug)]
pub enum TypedModVec {
    VecAppend(soroban_sdk::Vec<Val>, soroban_sdk::Vec<Val>),
    VecBack(soroban_sdk::Vec<Val>),
    VecBinarySearch(soroban_sdk::Vec<Val>, FakeVal),
    VecDel(soroban_sdk::Vec<Val>, u32),
    VecFirstIndexOf(soroban_sdk::Vec<Val>, FakeVal),
    VecFront(soroban_sdk::Vec<Val>),
    VecGet(soroban_sdk::Vec<Val>, u32),
    VecInsert(soroban_sdk::Vec<Val>, u32, FakeVal),
    VecLastIndexOf(soroban_sdk::Vec<Val>, FakeVal),
    VecLen(soroban_sdk::Vec<Val>),
    VecNew(FakeVal),
    VecNewFromLinearMemory(u32, u32),
    VecPopBack(soroban_sdk::Vec<Val>),
    VecPopFront(soroban_sdk::Vec<Val>),
    VecPushBack(soroban_sdk::Vec<Val>, FakeVal),
    VecPushFront(soroban_sdk::Vec<Val>, FakeVal),
    VecPut(soroban_sdk::Vec<Val>, u32, FakeVal),
    VecSlice(soroban_sdk::Vec<Val>, u32, u32),
    VecUnpackToLinearMemory(soroban_sdk::Vec<Val>, u32, u32),
}

impl TypedModAddress {
    pub open spec fn operation(&self) -> int {
        match self {
            TypedModAddress::AccountPublicKeyToAddress(..) => 0,
            TypedModAddress::AddressToAccountPublicKey(..) => 1,
            TypedModAddress::AddressToContractId(..) => 2,
            TypedModAddress::AuthorizeAsCurrContract(..) => 3,
            TypedModAddress::ContractIdToAddress(..) => 4,
            TypedModAddress::RequireAuth(..) => 5,
            TypedModAddress::RequireAuthForArgs(..) => 6,
        }
    }

    pub open spec fn slots(&self) -> Seq<Slot> {
        match self {
            TypedModAddress::AccountPublicKeyToAddress(x0) => seq![Slot::Bytes(bytes_of(*x0))],
            TypedModAddress::AddressToAccountPublicKey(x0) => {
                seq![Slot::Address(contract_id_of(*x0))]
            },
            TypedModAddress::AddressToContractId(x0) => seq![Slot::Address(contract_id_of(*x0))],
            TypedModAddress::AuthorizeAsCurrContract(x0) => seq![Slot::Vec(vec_items(*x0))],
            TypedModAddress::ContractIdToAddress(x0) => seq![Slot::Bytes(bytes_of(*x0))],
            TypedModAddress::RequireAuth(x0) => seq![Slot::Address(contract_id_of(*x0))],
            TypedModAddress::RequireAuthForArgs(x0, x1) => {
                seq![Slot::Address(contract_id_of(*x0)), Slot::Vec(vec_items(*x1))]
            },
        }
    }
}

impl TypedModBuf {
    pub open spec fn operation(&self) -> int {
        match self {
            TypedModBuf::BytesAppend(..) => 0,
            TypedModBuf::BytesBack(..) => 1,
            TypedModBuf::BytesCopyFromLinearMemory(..) => 2,
            TypedModBuf::BytesCopyToLinearMemory(..) => 3,
            TypedModBuf::BytesDel(..) => 4,
            TypedModBuf::BytesFront(..) => 5,
            TypedModBuf::BytesGet(..) => 6,
            TypedModBuf::BytesInsert(..) => 7,
            TypedModBuf::BytesLen(..) => 8,
            TypedModBuf::BytesNew => 9,
            TypedModBuf::BytesNewFromLinearMemory(..) => 10,
            TypedModBuf::BytesPop(..) => 11,
            TypedModBuf::BytesPush(..) => 12,
            TypedModBuf::BytesPut(..) => 13,
            TypedModBuf::BytesSlice(..) => 14,
            TypedModBuf::DeserializeFromBytes(..) => 15,
            TypedModBuf::SerializeToBytes(..) => 16,
            TypedModBuf::StringCopyToLinearMemory(..) => 17,
            TypedModBuf::StringLen(..) => 18,
            TypedModBuf::StringNewFromLinearMemory(..) => 19,
            TypedModBuf::SymbolCopyToLinearMemory(..) => 20,
            TypedModBuf::SymbolIndexInLinearMemory(..) => 21,
            TypedModBuf::SymbolLen(..) => 22,
            TypedModBuf::SymbolNewFromLinearMemory(..) => 23,
        }
    }

    pub open spec fn slots(&self) -> Seq<Slot> {
        match self {
            TypedModBuf::BytesAppend(x0, x1) => {
                seq![Slot::Bytes(bytes_of(*x0)), Slot::Bytes(bytes_of(*x1))]
            },
            TypedModBuf::BytesBack(x0) => seq![Slot::Bytes(bytes_of(*x0))],
            TypedModBuf::BytesCopyFromLinearMemory(x0, x1, x2, x3) => {
                seq![
                    Slot::Bytes(bytes_of(*x0)),
                    Slot::Scalar(*x1 as int),
                    Slot::Scalar(*x2 as int),
                    Slot::Scalar(*x3 as int),
                ]
            },
            TypedModBuf::BytesCopyToLinearMemory(x0, x1, x2, x3) => {
                seq![
                    Slot::Bytes(bytes_of(*x0)),
                    Slot::Scalar(*x1 as int),
                    Slot::Scalar(*x2 as int),
                    Slot::Scalar(*x3 as int),
                ]
            },
            TypedModBuf::BytesDel(x0, x1) => {
                seq![Slot::Bytes(bytes_of(*x0)), Slot::Scalar(*x1 as int)]
            },
            TypedModBuf::BytesFront(x0) => seq![Slot::Bytes(bytes_of(*x0))],
            TypedModBuf::BytesGet(x0, x1) => {
                seq![Slot::Bytes(bytes_of(*x0)), Slot::Scalar(*x1 as int)]
            },
            TypedModBuf::BytesInsert(x0, x1, x2) => {
                seq![Slot::Bytes(bytes_of(*x0)), Slot::Scalar(*x1 as int), Slot::Scalar(*x2 as int)]
            },
            TypedModBuf::BytesLen(x0) => seq![Slot::Bytes(bytes_of(*x0))],
            TypedModBuf::BytesNew => seq![],
            TypedModBuf::BytesNewFromLinearMemory(x0, x1) => {
                seq![Slot::Scalar(*x0 as int), Slot::Scalar(*x1 as int)]
            },
            TypedModBuf::BytesPop(x0) => seq![Slot::Bytes(bytes_of(*x0))],
            TypedModBuf::BytesPush(x0, x1) => {
                seq![Slot::Bytes(bytes_of(*x0)), Slot::Scalar(*x1 as int)]
            },
            TypedModBuf::BytesPut(x0, x1, x2) => {
                seq![Slot::Bytes(bytes_of(*x0)), Slot::Scalar(*x1 as int), Slot::Scalar(*x2 as int)]
            },
            TypedModBuf::BytesSlice(x0, x1, x2) => {
                seq![Slot::Bytes(bytes_of(*x0)), Slot::Scalar(*x1 as int), Slot::Scalar(*x2 as int)]
            },
            TypedModBuf::DeserializeFromBytes(x0) => seq![Slot::Bytes(bytes_of(*x0))],
            TypedModBuf::SerializeToBytes(x0) => seq![Slot::Val(x0.0)],
            TypedModBuf::StringCopyToLinearMemory(x0, x1, x2, x3) => {
                seq![
                    Slot::String(text_of(*x0)),
                    Slot::Scalar(*x1 as int),
                    Slot::Scalar(*x2 as int),
                    Slot::Scalar(*x3 as int),
                ]
            },
            TypedModBuf::StringLen(x0) => seq![Slot::String(text_of(*x0))],
            TypedModBuf::StringNewFromLinearMemory(x0, x1) => {
                seq![Slot::Scalar(*x0 as int), Slot::Scalar(*x1 as int)]
            },
            TypedModBuf::SymbolCopyToLinearMemory(x0, x1, x2, x3) => {
                seq![
                    Slot::Symbol(symbol_of(*x0)),
                    Slot::Scalar(*x1 as int),
                    Slot::Scalar(*x2 as int),
                    Slot::Scalar(*x3 as int),
                ]
            },
            TypedModBuf::SymbolIndexInLinearMemory(x0, x1, x2) => {
                seq![
                    Slot::Symbol(symbol_of(*x0)),
                    Slot::Scalar(*x1 as int),
                    Slot::Scalar(*x2 as int),
                ]
            },
            TypedModBuf::SymbolLen(x0) => seq![Slot::Symbol(symbol_of(*x0))],
            TypedModBuf::SymbolNewFromLinearMemory(x0, x1) => {
                seq![Slot::Scalar(*x0 as int), Slot::Scalar(*x1 as int)]
            },
        }
    }
}

impl TypedModCall {
    pub open spec fn operation(&self) -> int {
        match self {
            TypedModCall::Call(..) => 0,
            TypedModCall::TryCall(..) => 1,
        }
    }

    pub open spec fn slots(&self) -> Seq<Slot> {
        match self {
            TypedModCall::Call(x0, x1, x2) => {
                seq![
                    Slot::Address(contract_id_of(*x0)),
                    Slot::Symbol(symbol_of(*x1)),
                    Slot::Vec(vec_items(*x2)),
                ]
            },
            TypedModCall::TryCall(x0, x1, x2) => {
                seq![
                    Slot::Address(contract_id_of(*x0)),
                    Slot::Symbol(symbol_of(*x1)),
                    Slot::Vec(vec_items(*x2)),
                ]
            },
        }
    }
}

impl TypedModContext {
    pub open spec fn operation(&self) -> int {
        match self {
            TypedModContext::ContractEvent(..) => 0,
            TypedModContext::FailWithError(..) => 1,
            TypedModContext::GetCurrentCallStack => 2,
            TypedModContext::GetCurrentContractAddress => 3,
            TypedModContext::GetInvokingContract => 4,
            TypedModContext::GetLedgerNetworkId => 5,
            TypedModContext::GetLedgerSequence => 6,
            TypedModContext::GetLedgerTimestamp => 7,
            TypedModContext::GetLedgerVersion => 8,
            TypedModContext::LogFromLinearMemory(..) => 9,
            TypedModContext::ObjCmp(..) => 10,
        }
    }

    pub open spec fn slots(&self) -> Seq<Slot> {
        match self {
            TypedModContext::ContractEvent(x0, x1) => {
                seq![Slot::Vec(vec_items(*x0)), Slot::Val(x1.0)]
            },
            TypedModContext::FailWithError(x0) => seq![Slot::Val(x0.0)],
            TypedModContext::GetCurrentCallStack => seq![],
            TypedModContext::GetCurrentContractAddress => seq![],
            TypedModContext::GetInvokingContract => seq![],
            TypedModContext::GetLedgerNetworkId => seq![],
            TypedModContext::GetLedgerSequence => seq![],
            TypedModContext::GetLedgerTimestamp => seq![],
            TypedModContext::GetLedgerVersion => seq![],
            TypedModContext::LogFromLinearMemory(x0, x1, x2, x3) => {
                seq![
                    Slot::Scalar(*x0 as int),
                    Slot::Scalar(*x1 as int),
                    Slot::Scalar(*x2 as int),
                    Slot::Scalar(*x3 as int),
                ]
            },
            TypedModContext::ObjCmp(x0, x1) => seq![Slot::Val(x0.0), Slot::Val(x1.0)],
        }
    }
}

impl TypedModCrypto {
    pub open spec fn operation(&self) -> int {
        match self {
            TypedModCrypto::ComputeHashKeccak256(..) => 0,
            TypedModCrypto::ComputeHashSha256(..) => 1,
            TypedModCrypto::RecoverKeyEcdsaSecp256k1(..) => 2,
            TypedModCrypto::VerifySigEd25519(..) => 3,
        }
    }

    pub open spec fn slots(&self) -> Seq<Slot> {
        match self {
            TypedModCrypto::ComputeHashKeccak256(x0) => seq![Slot::Bytes(bytes_of(*x0))],
            TypedModCrypto::ComputeHashSha256(x0) => seq![Slot::Bytes(bytes_of(*x0))],
            TypedModCrypto::RecoverKeyEcdsaSecp256k1(x0, x1, x2) => {
                seq![
                    Slot::Bytes(bytes_of(*x0)),
                    Slot::Bytes(bytes_of(*x1)),
                    Slot::Scalar(*x2 as int),
                ]
            },
            TypedModCrypto::VerifySigEd25519(x0, x1, x2) => {
                seq![
                    Slot::Bytes(bytes_of(*x0)),
                    Slot::Bytes(bytes_of(*x1)),
                    Slot::Bytes(bytes_of(*x2)),
                ]
            },
        }
    }
}

impl TypedModInt {
    pub open spec fn operation(&self) -> int {
        match self {
            TypedModInt::DurationObjFromU64(..) => 0,
            TypedModInt::DurationObjToU64(..) => 1,
            TypedModInt::I256Add(..) => 2,
            TypedModInt::I256Div(..) => 3,
            TypedModInt::I256Mul(..) => 4,
            TypedModInt::I256ObjFromBeBytes(..) => 5,
            TypedModInt::I256ObjToBeBytes(..) => 6,
            TypedModInt::I256Pow(..) => 7,
            TypedModInt::I256Shl(..) => 8,
            TypedModInt::I256Shr(..) => 9,
            TypedModInt::I256Sub(..) => 10,
            TypedModInt::ObjFromI64(..) => 11,
            TypedModInt::ObjFromI128Pieces(..) => 12,
            TypedModInt::ObjFromI256Pieces(..) => 13,
            TypedModInt::ObjFromU64(..) => 14,
            TypedModInt::ObjFromU128Pieces(..) => 15,
            TypedModInt::ObjFromU256Pieces(..) => 16,
            TypedModInt::ObjToI64(..) => 17,
            TypedModInt::ObjToI128Hi64(..) => 18,
            TypedModInt::ObjToI128Lo64(..) => 19,
            TypedModInt::ObjToI256HiHi(..) => 20,
            TypedModInt::ObjToI256HiLo(..) => 21,
            TypedModInt::ObjToI256LoHi(..) => 22,
            TypedModInt::ObjToI256LoLo(..) => 23,
            TypedModInt::ObjToU64(..) => 24,
            TypedModInt::ObjToU128Hi64(..) => 25,
            TypedModInt::ObjToU128Lo64(..) => 26,
            TypedModInt::ObjToU256HiHi(..) => 27,
            TypedModInt::ObjToU256HiLo(..) => 28,
            TypedModInt::ObjToU256LoHi(..) => 29,
            TypedModInt::ObjToU256LoLo(..) => 30,
            TypedModInt::TimepointObjFromU64(..) => 31,
            TypedModInt::TimepointObjToU64(..) => 32,
            TypedModInt::U256Add(..) => 33,
            TypedModInt::U256Div(..) => 34,
            TypedModInt::U256Mul(..) => 35,
            TypedModInt::U256ValFromBeBytes(..) => 36,
            TypedModInt::U256ValToBeBytes(..) => 37,
            TypedModInt::U256Pow(..) => 38,
            TypedModInt::U256Shl(..) => 39,
            TypedModInt::U256Shr(..) => 40,
            TypedModInt::U256Sub(..) => 41,
        }
    }

    pub open spec fn slots(&self) -> Seq<Slot> {
        match self {
            TypedModInt::DurationObjFromU64(x0) => seq![Slot::Scalar(*x0 as int)],
            TypedModInt::DurationObjToU64(x0) => seq![Slot::Val(x0.0)],
            TypedModInt::I256Add(x0, x1) => seq![Slot::Val(x0.0), Slot::Val(x1.0)],
            TypedModInt::I256Div(x0, x1) => seq![Slot::Val(x0.0), Slot::Val(x1.0)],
            TypedModInt::I256Mul(x0, x1) => seq![Slot::Val(x0.0), Slot::Val(x1.0)],
            TypedModInt::I256ObjFromBeBytes(x0) => seq![Slot::Bytes(bytes_of(*x0))],
            TypedModInt::I256ObjToBeBytes(x0) => seq![Slot::Val(x0.0)],
            TypedModInt::I256Pow(x0, x1) => seq![Slot::Val(x0.0), Slot::Scalar(*x1 as int)],
            TypedModInt::I256Shl(x0, x1) => seq![Slot::Val(x0.0), Slot::Scalar(*x1 as int)],
            TypedModInt::I256Shr(x0, x1) => seq![Slot::Val(x0.0), Slot::Scalar(*x1 as int)],
            TypedModInt::I256Sub(x0, x1) => seq![Slot::Val(x0.0), Slot::Val(x1.0)],
            TypedModInt::ObjFromI64(x0) => seq![Slot::Scalar(*x0 as int)],
            TypedModInt::ObjFromI128Pieces(x0, x1) => {
                seq![Slot::Scalar(*x0 as int), Slot::Scalar(*x1 as int)]
            },
            TypedModInt::ObjFromI256Pieces(x0, x1, x2, x3) => {
                seq![
                    Slot::Scalar(*x0 as int),
                    Slot::Scalar(*x1 as int),
                    Slot::Scalar(*x2 as int),
                    Slot::Scalar(*x3 as int),
                ]
            },
            TypedModInt::ObjFromU64(x0) => seq![Slot::Scalar(*x0 as int)],
            TypedModInt::ObjFromU128Pieces(x0, x1) => {
                seq![Slot::Scalar(*x0 as int), Slot::Scalar(*x1 as int)]
            },
            TypedModInt::ObjFromU256Pieces(x0, x1, x2, x3) => {
                seq![
                    Slot::Scalar(*x0 as int),
                    Slot::Scalar(*x1 as int),
                    Slot::Scalar(*x2 as int),
                    Slot::Scalar(*x3 as int),
                ]
            },
            TypedModInt::ObjToI64(x0) => seq![Slot::Scalar(*x0 as int)],
            TypedModInt::ObjToI128Hi64(x0) => seq![Slot::Scalar(*x0 as int)],
            TypedModInt::ObjToI128Lo64(x0) => seq![Slot::Scalar(*x0 as int)],
            TypedModInt::ObjToI256HiHi(x0) => seq![Slot::Val(x0.0)],
            TypedModInt::ObjToI256HiLo(x0) => seq![Slot::Val(x0.0)],
            TypedModInt::ObjToI256LoHi(x0) => seq![Slot::Val(x0.0)],
            TypedModInt::ObjToI256LoLo(x0) => seq![Slot::Val(x0.0)],
            TypedModInt::ObjToU64(x0) => seq![Slot::Scalar(*x0 as int)],
            TypedModInt::ObjToU128Hi64(x0) => seq![Slot::Scalar(*x0 as int)],
            TypedModInt::ObjToU128Lo64(x0) => seq![Slot::Scalar(*x0 as int)],
            TypedModInt::ObjToU256HiHi(x0) => seq![Slot::Val(x0.0)],
            TypedModInt::ObjToU256HiLo(x0) => seq![Slot::Val(x0.0)],
            TypedModInt::ObjToU256LoHi(x0) => seq![Slot::Val(x0.0)],
            TypedModInt::ObjToU256LoLo(x0) => seq![Slot::Val(x0.0)],
            TypedModInt::TimepointObjFromU64(x0) => seq![Slot::Scalar(*x0 as int)],
            TypedModInt::TimepointObjToU64(x0) => seq![Slot::Val(x0.0)],
            TypedModInt::U256Add(x0, x1) => seq![Slot::Val(x0.0), Slot::Val(x1.0)],
            TypedModInt::U256Div(x0, x1) => seq![Slot::Val(x0.0), Slot::Val(x1.0)],
            TypedModInt::U256Mul(x0, x1) => seq![Slot::Val(x0.0), Slot::Val(x1.0)],
            TypedModInt::U256ValFromBeBytes(x0) => seq![Slot::Bytes(bytes_of(*x0))],
            TypedModInt::U256ValToBeBytes(x0) => seq![Slot::Val(x0.0)],
            TypedModInt::U256Pow(x0, x1) => seq![Slot::Val(x0.0), Slot::Scalar(*x1 as int)],
            TypedModInt::U256Shl(x0, x1) => seq![Slot::Val(x0.0), Slot::Scalar(*x1 as int)],
            TypedModInt::U256Shr(x0, x1) => seq![Slot::Val(x0.0), Slot::Scalar(*x1 as int)],
            TypedModInt::U256Sub(x0, x1) => seq![Slot::Val(x0.0), Slot::Val(x1.0)],
        }
    }
}

impl TypedModLedger {
    pub open spec fn operation(&self) -> int {
        match self {
            TypedModLedger::BumpContractData(..) => 0,
            TypedModLedger::CreateAssetContract(..) => 1,
            TypedModLedger::CreateContract(..) => 2,
            TypedModLedger::DelContractData(..) => 3,
            TypedModLedger::GetAssetContractId(..) => 4,
            TypedModLedger::GetContractData(..) => 5,
            TypedModLedger::GetContractId(..) => 6,
            TypedModLedger::HasContractData(..) => 7,
            TypedModLedger::PutContractData(..) => 8,
            TypedModLedger::UpdateCurrentContractWasm(..) => 9,
            TypedModLedger::UploadWasm(..) => 10,
        }
    }

    pub open spec fn slots(&self) -> Seq<Slot> {
        match self {
            TypedModLedger::BumpContractData(x0, x1) => {
                seq![Slot::Val(x0.0), Slot::Scalar(*x1 as int)]
            },
            TypedModLedger::CreateAssetContract(x0) => seq![Slot::Bytes(bytes_of(*x0))],
            TypedModLedger::CreateContract(x0, x1, x2) => {
                seq![
                    Slot::Address(contract_id_of(*x0)),
                    Slot::Bytes(bytes_of(*x1)),
                    Slot::Bytes(bytes_of(*x2)),
                ]
            },
            TypedModLedger::DelContractData(x0) => seq![Slot::Val(x0.0)],
            TypedModLedger::GetAssetContractId(x0) => seq![Slot::Bytes(bytes_of(*x0))],
            TypedModLedger::GetContractData(x0) => seq![Slot::Val(x0.0)],
            TypedModLedger::GetContractId(x0, x1) => {
                seq![Slot::Address(contract_id_of(*x0)), Slot::Bytes(bytes_of(*x1))]
            },
            TypedModLedger::HasContractData(x0) => seq![Slot::Val(x0.0)],
            TypedModLedger::PutContractData(x0, x1, x2) => {
                seq![Slot::Val(x0.0), Slot::Val(x1.0), Slot::Val(x2.0)]
            },
            TypedModLedger::UpdateCurrentContractWasm(x0) => seq![Slot::Bytes(bytes_of(*x0))],
            TypedModLedger::UploadWasm(x0) => seq![Slot::Bytes(bytes_of(*x0))],
        }
    }
}

impl TypedModMap {
    pub open spec fn operation(&self) -> int {
        match self {
            TypedModMap::MapDel(..) => 0,
            TypedModMap::MapGet(..) => 1,
            TypedModMap::MapHas(..) => 2,
            TypedModMap::MapKeys(..) => 3,
            TypedModMap::MapLen(..) => 4,
            TypedModMap::MapMaxKey(..) => 5,
            TypedModMap::MapMinKey(..) => 6,
            TypedModMap::MapNew => 7,
            TypedModMap::MapNewFromLinearMemory(..) => 8,
            TypedModMap::MapNextKey(..) => 9,
            TypedModMap::MapPrevKey(..) => 10,
            TypedModMap::MapPut(..) => 11,
            TypedModMap::MapUnpackToLinearMemory(..) => 12,
            TypedModMap::MapValues(..) => 13,
        }
    }

    pub open spec fn slots(&self) -> Seq<Slot> {
        match self {
            TypedModMap::MapDel(x0, x1) => seq![Slot::Table, Slot::Val(x1.0)],
            TypedModMap::MapGet(x0, x1) => seq![Slot::Table, Slot::Val(x1.0)],
            TypedModMap::MapHas(x0, x1) => seq![Slot::Table, Slot::Val(x1.0)],
            TypedModMap::MapKeys(x0) => seq![Slot::Table],
            TypedModMap::MapLen(x0) => seq![Slot::Table],
            TypedModMap::MapMaxKey(x0) => seq![Slot::Table],
            TypedModMap::MapMinKey(x0) => seq![Slot::Table],
            TypedModMap::MapNew => seq![],
            TypedModMap::MapNewFromLinearMemory(x0, x1, x2) => {
                seq![Slot::Scalar(*x0 as int), Slot::Scalar(*x1 as int), Slot::Scalar(*x2 as int)]
            },
            TypedModMap::MapNextKey(x0, x1) => seq![Slot::Table, Slot::Val(x1.0)],
            TypedModMap::MapPrevKey(x0, x1) => seq![Slot::Table, Slot::Val(x1.0)],
            TypedModMap::MapPut(x0, x1, x2) => seq![Slot::Table, Slot::Val(x1.0), Slot::Val(x2.0)],
            TypedModMap::MapUnpackToLinearMemory(x0, x1, x2, x3) => {
                seq![
                    Slot::Table,
                    Slot::Scalar(*x1 as int),
                    Slot::Scalar(*x2 as int),
                    Slot::Scalar(*x3 as int),
                ]
            },
            TypedModMap::MapValues(x0) => seq![Slot::Table],
        }
    }
}

impl TypedModPrng {
    pub open spec fn operation(&self) -> int {
        match self {
            TypedModPrng::PrngBytesNew(..) => 0,
            TypedModPrng::PrngReseed(..) => 1,
            TypedModPrng::PrngU64InInclusiveRange(..) => 2,
            TypedModPrng::PrngVecShuffle(..) => 3,
        }
    }

    pub open spec fn slots(&self) -> Seq<Slot> {
        match self {
            TypedModPrng::PrngBytesNew(x0) => seq![Slot::Scalar(*x0 as int)],
            TypedModPrng::PrngReseed(x0) => seq![Slot::Bytes(bytes_of(*x0))],
            TypedModPrng::PrngU64InInclusiveRange(x0, x1) => {
                seq![Slot::Scalar(*x0 as int), Slot::Scalar(*x1 as int)]
            },
            TypedModPrng::PrngVecShuffle(x0) => seq![Slot::Vec(vec_items(*x0))],
        }
    }
}

impl TypedModVec {
    pub open spec fn operation(&self) -> int {
        match self {
            TypedModVec::VecAppend(..) => 0,
            TypedModVec::VecBack(..) => 1,
            TypedModVec::VecBinarySearch(..) => 2,
            TypedModVec::VecDel(..) => 3,
            TypedModVec::VecFirstIndexOf(..) => 4,
            TypedModVec::VecFront(..) => 5,
            TypedModVec::VecGet(..) => 6,
            TypedModVec::VecInsert(..) => 7,
            TypedModVec::VecLastIndexOf(..) => 8,
            TypedModVec::VecLen(..) => 9,
            TypedModVec::VecNew(..) => 10,
            TypedModVec::VecNewFromLinearMemory(..) => 11,
            TypedModVec::VecPopBack(..) => 12,
            TypedModVec::VecPopFront(..) => 13,
            TypedModVec::VecPushBack(..) => 14,
            TypedModVec::VecPushFront(..) => 15,
            TypedModVec::VecPut(..) => 16,
            TypedModVec::VecSlice(..) => 17,
            TypedModVec::VecUnpackToLinearMemory(..) => 18,
        }
    }

    pub open spec fn slots(&self) -> Seq<Slot> {
        match self {
            TypedModVec::VecAppend(x0, x1) => {
                seq![Slot::Vec(vec_items(*x0)), Slot::Vec(vec_items(*x1))]
            },
            TypedModVec::VecBack(x0) => seq![Slot::Vec(vec_items(*x0))],
            TypedModVec::VecBinarySearch(x0, x1) => {
                seq![Slot::Vec(vec_items(*x0)), Slot::Val(x1.0)]
            },
            TypedModVec::VecDel(x0, x1) => {
                seq![Slot::Vec(vec_items(*x0)), Slot::Scalar(*x1 as int)]
            },
            TypedModVec::VecFirstIndexOf(x0, x1) => {
                seq![Slot::Vec(vec_items(*x0)), Slot::Val(x1.0)]
            },
            TypedModVec::VecFront(x0) => seq![Slot::Vec(vec_items(*x0))],
            TypedModVec::VecGet(x0, x1) => {
                seq![Slot::Vec(vec_items(*x0)), Slot::Scalar(*x1 as int)]
            },
            TypedModVec::VecInsert(x0, x1, x2) => {
                seq![Slot::Vec(vec_items(*x0)), Slot::Scalar(*x1 as int), Slot::Val(x2.0)]
            },
            TypedModVec::VecLastIndexOf(x0, x1) => seq![Slot::Vec(vec_items(*x0)), Slot::Val(x1.0)],
            TypedModVec::VecLen(x0) => seq![Slot::Vec(vec_items(*x0))],
            TypedModVec::VecNew(x0) => seq![Slot::Val(x0.0)],
            TypedModVec::VecNewFromLinearMemory(x0, x1) => {
                seq![Slot::Scalar(*x0 as int), Slot::Scalar(*x1 as int)]
            },
            TypedModVec::VecPopBack(x0) => seq![Slot::Vec(vec_items(*x0))],
            TypedModVec::VecPopFront(x0) => seq![Slot::Vec(vec_items(*x0))],
            TypedModVec::VecPushBack(x0, x1) => seq![Slot::Vec(vec_items(*x0)), Slot::Val(x1.0)],
            TypedModVec::VecPushFront(x0, x1) => seq![Slot::Vec(vec_items(*x0)), Slot::Val(x1.0)],
            TypedModVec::VecPut(x0, x1, x2) => {
                seq![Slot::Vec(vec_items(*x0)), Slot::Scalar(*x1 as int), Slot::Val(x2.0)]
            },
            TypedModVec::VecSlice(x0, x1, x2) => {
                seq![Slot::Vec(vec_items(*x0)), Slot::Scalar(*x1 as int), Slot::Scalar(*x2 as int)]
            },
            TypedModVec::VecUnpackToLinearMemory(x0, x1, x2) => {
                seq![Slot::Vec(vec_items(*x0)), Slot::Scalar(*x1 as int), Slot::Scalar(*x2 as int)]
            },
        }
    }
}

impl TypedFuzzInstruction {
    pub open spec fn category(&self) -> int {
        match self {
            TypedFuzzInstruction::Address(_) => 0,
            TypedFuzzInstruction::Buf(_) => 1,
            TypedFuzzInstruction::Call(_) => 2,
            TypedFuzzInstruction::Context(_) => 3,
            TypedFuzzInstruction::Crypto(_) => 4,
            TypedFuzzInstruction::Int(_) => 5,
            TypedFuzzInstruction::Ledger(_) => 6,
            TypedFuzzInstruction::Maps(_) => 7,
            TypedFuzzInstruction::Prng(_) => 8,
            TypedFuzzInstruction::Test => 9,
            TypedFuzzInstruction::Vec(_) => 10,
        }
    }

    pub open spec fn operation(&self) -> int {
        match self {
            TypedFuzzInstruction::Address(v) => v.operation(),
            TypedFuzzInstruction::Buf(v) => v.operation(),
            TypedFuzzInstruction::Call(v) => v.operation(),
            TypedFuzzInstruction::Context(v) => v.operation(),
            TypedFuzzInstruction::Crypto(v) => v.operation(),
            TypedFuzzInstruction::Int(v) => v.operation(),
            TypedFuzzInstruction::Ledger(v) => v.operation(),
            TypedFuzzInstruction::Maps(v) => v.operation(),
            TypedFuzzInstruction::Prng(v) => v.operation(),
            TypedFuzzInstruction::Test => 0,
            TypedFuzzInstruction::Vec(v) => v.operation(),
        }
    }

    pub open spec fn slots(&self) -> Seq<Slot> {
        match self {
            TypedFuzzInstruction::Address(v) => v.slots(),
            TypedFuzzInstruction::Buf(v) => v.slots(),
            TypedFuzzInstruction::Call(v) => v.slots(),
            TypedFuzzInstruction::Context(v) => v.slots(),
            TypedFuzzInstruction::Crypto(v) => v.slots(),
            TypedFuzzInstruction::Int(v) => v.slots(),
            TypedFuzzInstruction::Ledger(v) => v.slots(),
            TypedFuzzInstruction::Maps(v) => v.slots(),
            TypedFuzzInstruction::Prng(v) => v.slots(),
            TypedFuzzInstruction::Test => seq![],
            TypedFuzzInstruction::Vec(v) => v.slots(),
        }
    }
}

impl TypedModAddressPrototype {
    /// The operation with its operands placed in `env`.
    pub fn to_guest(&self, env: &Env) -> (r: TypedModAddress)
        requires
            operands_wf(self.operands()),
        ensures
            r.operation() == self.operation(),
            slots_hold(r.slots(), self.operands()),
    {
        match self {
            TypedModAddressPrototype::AccountPublicKeyToAddress(x0) => {
                let y0 = adapt_bytes(env, x0);
                proof {
                    lemma_slots_hold_1(Slot::Bytes(bytes_of(y0)), OperandView::Bytes(x0.bytes@));
                }
                TypedModAddress::AccountPublicKeyToAddress(y0)
            },
            TypedModAddressPrototype::AddressToAccountPublicKey(x0) => {
                proof {
                    assert(operand_wf(self.operands()[0]));
                }
                let y0 = adapt_address(env, x0);
                proof {
                    lemma_slots_hold_1(
                        Slot::Address(contract_id_of(y0)),
                        OperandView::Address(x0.contract_id@),
                    );
                }
                TypedModAddress::AddressToAccountPublicKey(y0)
            },
            TypedModAddressPrototype::AddressToContractId(x0) => {
                proof {
                    assert(operand_wf(self.operands()[0]));
                }
                let y0 = adapt_address(env, x0);
                proof {
                    lemma_slots_hold_1(
                        Slot::Address(contract_id_of(y0)),
                        OperandView::Address(x0.contract_id@),
                    );
                }
                TypedModAddress::AddressToContractId(y0)
            },
            TypedModAddressPrototype::AuthorizeAsCurrContract(x0) => {
                proof {
                    assert(operand_wf(self.operands()[0]));
                }
                let y0 = adapt_val_vec(env, x0);
                proof {
                    lemma_slots_hold_1(
                        Slot::Vec(vec_items(y0)),
                        OperandView::ValVec(x0.items_view()),
                    );
                }
                TypedModAddress::AuthorizeAsCurrContract(y0)
            },
            TypedModAddressPrototype::ContractIdToAddress(x0) => {
                let y0 = adapt_bytes(env, x0);
                proof {
                    lemma_slots_hold_1(Slot::Bytes(bytes_of(y0)), OperandView::Bytes(x0.bytes@));
                }
                TypedModAddress::ContractIdToAddress(y0)
            },
            TypedModAddressPrototype::RequireAuth(x0) => {
                proof {
                    assert(operand_wf(self.operands()[0]));
                }
                let y0 = adapt_address(env, x0);
                proof {
                    lemma_slots_hold_1(
                        Slot::Address(contract_id_of(y0)),
                        OperandView::Address(x0.contract_id@),
                    );
                }
                TypedModAddress::RequireAuth(y0)
            },
            TypedModAddressPrototype::RequireAuthForArgs(x0, x1) => {
                proof {
                    assert(operand_wf(self.operands()[0]));
                    assert(operand_wf(self.operands()[1]));
                }
                let y0 = adapt_address(env, x0);
                let y1 = adapt_val_vec(env, x1);
                proof {
                    lemma_slots_hold_2(
                        Slot::Address(contract_id_of(y0)),
                        OperandView::Address(x0.contract_id@),
                        Slot::Vec(vec_items(y1)),
                        OperandView::ValVec(x1.items_view()),
                    );
                }
                TypedModAddress::RequireAuthForArgs(y0, y1)
            },
        }
    }
}

impl TypedModBufPrototype {
    /// The operation with its operands placed in `env`.
    pub fn to_guest(&self, env: &Env) -> (r: TypedModBuf)
        requires
            operands_wf(self.operands()),
        ensures
            r.operation() == self.operation(),
            slots_hold(r.slots(), self.operands()),
    {
        match self {
            TypedModBufPrototype::BytesAppend(x0, x1) => {
                let y0 = adapt_bytes(env, x0);
                let y1 = adapt_bytes(env, x1);
                proof {
                    lemma_slots_hold_2(
                        Slot::Bytes(bytes_of(y0)),
                        OperandView::Bytes(x0.bytes@),
                        Slot::Bytes(bytes_of(y1)),
                        OperandView::Bytes(x1.bytes@),
                    );
                }
                TypedModBuf::BytesAppend(y0, y1)
            },
            TypedModBufPrototype::BytesBack(x0) => {
                let y0 = adapt_bytes(env, x0);
                proof {
                    lemma_slots_hold_1(Slot::Bytes(bytes_of(y0)), OperandView::Bytes(x0.bytes@));
                }
                TypedModBuf::BytesBack(y0)
            },
            TypedModBufPrototype::BytesCopyFromLinearMemory(x0, x1, x2, x3) => {
                let y0 = adapt_bytes(env, x0);
                proof {
                    lemma_slots_hold_4(
                        Slot::Bytes(bytes_of(y0)),
                        OperandView::Bytes(x0.bytes@),
                        Slot::Scalar(*x1 as int),
                        OperandView::U32(*x1),
                        Slot::Scalar(*x2 as int),
                        OperandView::U32(*x2),
                        Slot::Scalar(*x3 as int),
                        OperandView::U32(*x3),
                    );
                }
                TypedModBuf::BytesCopyFromLinearMemory(y0, *x1, *x2, *x3)
            },
            TypedModBufPrototype::BytesCopyToLinearMemory(x0, x1, x2, x3) => {
                let y0 = adapt_bytes(env, x0);
                proof {
                    lemma_slots_hold_4(
                        Slot::Bytes(bytes_of(y0)),
                        OperandView::Bytes(x0.bytes@),
                        Slot::Scalar(*x1 as int),
                        OperandView::U32(*x1),
                        Slot::Scalar(*x2 as int),
                        OperandView::U32(*x2),
                        Slot::Scalar(*x3 as int),
                        OperandView::U32(*x3),
                    );
                }
                TypedModBuf::BytesCopyToLinearMemory(y0, *x1, *x2, *x3)
            },
            TypedModBufPrototype::BytesDel(x0, x1) => {
                let y0 = adapt_bytes(env, x0);
                proof {
                    lemma_slots_hold_2(
                        Slot::Bytes(bytes_of(y0)),
                        OperandView::Bytes(x0.bytes@),
                        Slot::Scalar(*x1 as int),
                        OperandView::U32(*x1),
                    );
                }
                TypedModBuf::BytesDel(y0, *x1)
            },
            TypedModBufPrototype::BytesFront(x0) => {
                let y0 = adapt_bytes(env, x0);
                proof {
                    lemma_slots_hold_1(Slot::Bytes(bytes_of(y0)), OperandView::Bytes(x0.bytes@));
                }
                TypedModBuf::BytesFront(y0)
            },
            TypedModBufPrototype::BytesGet(x0, x1) => {
                let y0 = adapt_bytes(env, x0);
                proof {
                    lemma_slots_hold_2(
                        Slot::Bytes(bytes_of(y0)),
                        OperandView::Bytes(x0.bytes@),
                        Slot::Scalar(*x1 as int),
                        OperandView::U32(*x1),
                    );
                }
                TypedModBuf::BytesGet(y0, *x1)
            },
            TypedModBufPrototype::BytesInsert(x0, x1, x2) => {
                let y0 = adapt_bytes(env, x0);
                proof {
                    lemma_slots_hold_3(
                        Slot::Bytes(bytes_of(y0)),
                        OperandView::Bytes(x0.bytes@),
                        Slot::Scalar(*x1 as int),
                        OperandView::U32(*x1),
                        Slot::Scalar(*x2 as int),
                        OperandView::U32(*x2),
                    );
                }
                TypedModBuf::BytesInsert(y0, *x1, *x2)
            },
            TypedModBufPrototype::BytesLen(x0) => {
                let y0 = adapt_bytes(env, x0);
                proof {
                    lemma_slots_hold_1(Slot::Bytes(bytes_of(y0)), OperandView::Bytes(x0.bytes@));
                }
                TypedModBuf::BytesLen(y0)
            },
            TypedModBufPrototype::BytesNew => TypedModBuf::BytesNew,
            TypedModBufPrototype::BytesNewFromLinearMemory(x0, x1) => {
                proof {
                    lemma_slots_hold_2(
                        Slot::Scalar(*x0 as int),
                        OperandView::U32(*x0),
                        Slot::Scalar(*x1 as int),
                        OperandView::U32(*x1),
                    );
                }
                TypedModBuf::BytesNewFromLinearMemory(*x0, *x1)
            },
            TypedModBufPrototype::BytesPop(x0) => {
                let y0 = adapt_bytes(env, x0);
                proof {
                    lemma_slots_hold_1(Slot::Bytes(bytes_of(y0)), OperandView::Bytes(x0.bytes@));
                }
                TypedModBuf::BytesPop(y0)
            },
            TypedModBufPrototype::BytesPush(x0, x1) => {
                let y0 = adapt_bytes(env, x0);
                proof {
                    lemma_slots_hold_2(
                        Slot::Bytes(bytes_of(y0)),
                        OperandView::Bytes(x0.bytes@),
                        Slot::Scalar(*x1 as int),
                        OperandView::U32(*x1),
                    );
                }
                TypedModBuf::BytesPush(y0, *x1)
            },
            TypedModBufPrototype::BytesPut(x0, x1, x2) => {
                let y0 = adapt_bytes(env, x0);
                proof {
                    lemma_slots_hold_3(
                        Slot::Bytes(bytes_of(y0)),
                        OperandView::Bytes(x0.bytes@),
                        Slot::Scalar(*x1 as int),
                        OperandView::U32(*x1),
                        Slot::Scalar(*x2 as int),
                        OperandView::U32(*x2),
                    );
                }
                TypedModBuf::BytesPut(y0, *x1, *x2)
            },
            TypedModBufPrototype::BytesSlice(x0, x1, x2) => {
                let y0 = adapt_bytes(env, x0);
                proof {
                    lemma_slots_hold_3(
                        Slot::Bytes(bytes_of(y0)),
                        OperandView::Bytes(x0.bytes@),
                        Slot::Scalar(*x1 as int),
                        OperandView::U32(*x1),
                        Slot::Scalar(*x2 as int),
                        OperandView::U32(*x2),
                    );
                }
                TypedModBuf::BytesSlice(y0, *x1, *x2)
            },
            TypedModBufPrototype::DeserializeFromBytes(x0) => {
                let y0 = adapt_bytes(env, x0);
                proof {
                    lemma_slots_hold_1(Slot::Bytes(bytes_of(y0)), OperandView::Bytes(x0.bytes@));
                }
                TypedModBuf::DeserializeFromBytes(y0)
            },
            TypedModBufPrototype::SerializeToBytes(x0) => {
                proof {
                    assert(operand_wf(self.operands()[0]));
                }
                let y0 = adapt_val(env, x0);
                proof {
                    lemma_slots_hold_1(Slot::Val(y0.0), OperandView::Val(x0@));
                }
                TypedModBuf::SerializeToBytes(y0)
            },
            TypedModBufPrototype::StringCopyToLinearMemory(x0, x1, x2, x3) => {
                let y0 = adapt_string(env, x0);
                proof {
                    lemma_slots_hold_4(
                        Slot::String(text_of(y0)),
                        OperandView::String(x0.bytes@),
                        Slot::Scalar(*x1 as int),
                        OperandView::U32(*x1),
                        Slot::Scalar(*x2 as int),
                        OperandView::U32(*x2),
                        Slot::Scalar(*x3 as int),
                        OperandView::U32(*x3),
                    );
                }
                TypedModBuf::StringCopyToLinearMemory(y0, *x1, *x2, *x3)
            },
            TypedModBufPrototype::StringLen(x0) => {
                let y0 = adapt_string(env, x0);
                proof {
                    lemma_slots_hold_1(Slot::String(text_of(y0)), OperandView::String(x0.bytes@));
                }
                TypedModBuf::StringLen(y0)
            },
            TypedModBufPrototype::StringNewFromLinearMemory(x0, x1) => {
                proof {
                    lemma_slots_hold_2(
                        Slot::Scalar(*x0 as int),
                        OperandView::U32(*x0),
                        Slot::Scalar(*x1 as int),
                        OperandView::U32(*x1),
                    );
                }
                TypedModBuf::StringNewFromLinearMemory(*x0, *x1)
            },
            TypedModBufPrototype::SymbolCopyToLinearMemory(x0, x1, x2, x3) => {
                proof {
                    assert(operand_wf(self.operands()[0]));
                }
                let y0 = adapt_symbol(env, x0);
                proof {
                    lemma_slots_hold_4(
                        Slot::Symbol(symbol_of(y0)),
                        OperandView::Symbol(x0.chars@),
                        Slot::Scalar(*x1 as int),
                        OperandView::U32(*x1),
                        Slot::Scalar(*x2 as int),
                        OperandView::U32(*x2),
                        Slot::Scalar(*x3 as int),
                        OperandView::U32(*x3),
                    );
                }
                TypedModBuf::SymbolCopyToLinearMemory(y0, *x1, *x2, *x3)
            },
            TypedModBufPrototype::SymbolIndexInLinearMemory(x0, x1, x2) => {
                proof {
                    assert(operand_wf(self.operands()[0]));
                }
                let y0 = adapt_symbol(env, x0);
                proof {
                    lemma_slots_hold_3(
                        Slot::Symbol(symbol_of(y0)),
                        OperandView::Symbol(x0.chars@),
                        Slot::Scalar(*x1 as int),
                        OperandView::U32(*x1),
                        Slot::Scalar(*x2 as int),
                        OperandView::U32(*x2),
                    );
                }
                TypedModBuf::SymbolIndexInLinearMemory(y0, *x1, *x2)
            },
            TypedModBufPrototype::SymbolLen(x0) => {
                proof {
                    assert(operand_wf(self.operands()[0]));
                }
                let y0 = adapt_symbol(env, x0);
                proof {
                    lemma_slots_hold_1(Slot::Symbol(symbol_of(y0)), OperandView::Symbol(x0.chars@));
                }
                TypedModBuf::SymbolLen(y0)
            },
            TypedModBufPrototype::SymbolNewFromLinearMemory(x0, x1) => {
                proof {
                    lemma_slots_hold_2(
                        Slot::Scalar(*x0 as int),
                        OperandView::U32(*x0),
                        Slot::Scalar(*x1 as int),
                        OperandView::U32(*x1),
                    );
                }
                TypedModBuf::SymbolNewFromLinearMemory(*x0, *x1)
            },
        }
    }
}

impl TypedModCallPrototype {
    /// The operation with its operands placed in `env`.
    pub fn to_guest(&self, env: &Env) -> (r: TypedModCall)
        requires
            operands_wf(self.operands()),
        ensures
            r.operation() == self.operation(),
            slots_hold(r.slots(), self.operands()),
    {
        match self {
            TypedModCallPrototype::Call(x0, x1, x2) => {
                proof {
                    assert(operand_wf(self.operands()[0]));
                    assert(operand_wf(self.operands()[1]));
                    assert(operand_wf(self.operands()[2]));
                }
                let y0 = adapt_address(env, x0);
                let y1 = adapt_symbol(env, x1);
                let y2 = adapt_val_vec(env, x2);
                proof {
                    lemma_slots_hold_3(
                        Slot::Address(contract_id_of(y0)),
                        OperandView::Address(x0.contract_id@),
                        Slot::Symbol(symbol_of(y1)),
                        OperandView::Symbol(x1.chars@),
                        Slot::Vec(vec_items(y2)),
                        OperandView::ValVec(x2.items_view()),
                    );
                }
                TypedModCall::Call(y0, y1, y2)
            },
            TypedModCallPrototype::TryCall(x0, x1, x2) => {
                proof {
                    assert(operand_wf(self.operands()[0]));
                    assert(operand_wf(self.operands()[1]));
                    assert(operand_wf(self.operands()[2]));
                }
                let y0 = adapt_address(env, x0);
                let y1 = adapt_symbol(env, x1);
                let y2 = adapt_val_vec(env, x2);
                proof {
                    lemma_slots_hold_3(
                        Slot::Address(contract_id_of(y0)),
                        OperandView::Address(x0.contract_id@),
                        Slot::Symbol(symbol_of(y1)),
                        OperandView::Symbol(x1.chars@),
                        Slot::Vec(vec_items(y2)),
                        OperandView::ValVec(x2.items_view()),
                    );
                }
                TypedModCall::TryCall(y0, y1, y2)
            },
        }
    }
}

impl TypedModContextPrototype {
    /// The operation with its operands placed in `env`.
    pub fn to_guest(&self, env: &Env) -> (r: TypedModContext)
        requires
            operands_wf(self.operands()),
        ensures
            r.operation() == self.operation(),
            slots_hold(r.slots(), self.operands()),
    {
        match self {
            TypedModContextPrototype::ContractEvent(x0, x1) => {
                proof {
                    assert(operand_wf(self.operands()[0]));
                    assert(operand_wf(self.operands()[1]));
                }
                let y0 = adapt_val_vec(env, x0);
                let y1 = adapt_val(env, x1);
                proof {
                    lemma_slots_hold_2(
                        Slot::Vec(vec_items(y0)),
                        OperandView::ValVec(x0.items_view()),
                        Slot::Val(y1.0),
                        OperandView::Val(x1@),
                    );
                }
                TypedModContext::ContractEvent(y0, y1)
            },
            TypedModContextPrototype::FailWithError(x0) => {
                proof {
                    assert(operand_wf(self.operands()[0]));
                }
                let y0 = adapt_val(env, x0);
                proof {
                    lemma_slots_hold_1(Slot::Val(y0.0), OperandView::Val(x0@));
                }
                TypedModContext::FailWithError(y0)
            },
            TypedModContextPrototype::GetCurrentCallStack => TypedModContext::GetCurrentCallStack,
            TypedModContextPrototype::GetCurrentContractAddress => {
                TypedModContext::GetCurrentContractAddress
            },
            TypedModContextPrototype::GetInvokingContract => TypedModContext::GetInvokingContract,
            TypedModContextPrototype::GetLedgerNetworkId => TypedModContext::GetLedgerNetworkId,
            TypedModContextPrototype::GetLedgerSequence => TypedModContext::GetLedgerSequence,
            TypedModContextPrototype::GetLedgerTimestamp => TypedModContext::GetLedgerTimestamp,
            TypedModContextPrototype::GetLedgerVersion => TypedModContext::GetLedgerVersion,
            TypedModContextPrototype::LogFromLinearMemory(x0, x1, x2, x3) => {
                proof {
                    lemma_slots_hold_4(
                        Slot::Scalar(*x0 as int),
                        OperandView::U32(*x0),
                        Slot::Scalar(*x1 as int),
                        OperandView::U32(*x1),
                        Slot::Scalar(*x2 as int),
                        OperandView::U32(*x2),
                        Slot::Scalar(*x3 as int),
                        OperandView::U32(*x3),
                    );
                }
                TypedModContext::LogFromLinearMemory(*x0, *x1, *x2, *x3)
            },
            TypedModContextPrototype::ObjCmp(x0, x1) => {
                proof {
                    assert(operand_wf(self.operands()[0]));
                    assert(operand_wf(self.operands()[1]));
                }
                let y0 = adapt_val(env, x0);
                let y1 = adapt_val(env, x1);
                proof {
                    lemma_slots_hold_2(
                        Slot::Val(y0.0),
                        OperandView::Val(x0@),
                        Slot::Val(y1.0),
                        OperandView::Val(x1@),
                    );
                }
                TypedModContext::ObjCmp(y0, y1)
            },
        }
    }
}

impl TypedModCryptoPrototype {
    /// The operation with its operands placed in `env`.
    pub fn to_guest(&self, env: &Env) -> (r: TypedModCrypto)
        requires
            operands_wf(self.operands()),
        ensures
            r.operation() == self.operation(),
            slots_hold(r.slots(), self.operands()),
    {
        match self {
            TypedModCryptoPrototype::ComputeHashKeccak256(x0) => {
                let y0 = adapt_bytes(env, x0);
                proof {
                    lemma_slots_hold_1(Slot::Bytes(bytes_of(y0)), OperandView::Bytes(x0.bytes@));
                }
                TypedModCrypto::ComputeHashKeccak256(y0)
            },
            TypedModCryptoPrototype::ComputeHashSha256(x0) => {
                let y0 = adapt_bytes(env, x0);
                proof {
                    lemma_slots_hold_1(Slot::Bytes(bytes_of(y0)), OperandView::Bytes(x0.bytes@));
                }
                TypedModCrypto::ComputeHashSha256(y0)
            },
            TypedModCryptoPrototype::RecoverKeyEcdsaSecp256k1(x0, x1, x2) => {
                let y0 = adapt_bytes(env, x0);
                let y1 = adapt_bytes(env, x1);
                proof {
                    lemma_slots_hold_3(
                        Slot::Bytes(bytes_of(y0)),
                        OperandView::Bytes(x0.bytes@),
                        Slot::Bytes(bytes_of(y1)),
                        OperandView::Bytes(x1.bytes@),
                        Slot::Scalar(*x2 as int),
                        OperandView::U32(*x2),
                    );
                }
                TypedModCrypto::RecoverKeyEcdsaSecp256k1(y0, y1, *x2)
            },
            TypedModCryptoPrototype::VerifySigEd25519(x0, x1, x2) => {
                let y0 = adapt_bytes(env, x0);
                let y1 = adapt_bytes(env, x1);
                let y2 = adapt_bytes(env, x2);
                proof {
                    lemma_slots_hold_3(
                        Slot::Bytes(bytes_of(y0)),
                        OperandView::Bytes(x0.bytes@),
                        Slot::Bytes(bytes_of(y1)),
                        OperandView::Bytes(x1.bytes@),
                        Slot::Bytes(bytes_of(y2)),
                        OperandView::Bytes(x2.bytes@),
                    );
                }
                TypedModCrypto::VerifySigEd25519(y0, y1, y2)
            },
        }
    }
}

impl TypedModIntPrototype {
    /// The operation with its operands placed in `env`.
    pub fn to_guest(&self, env: &Env) -> (r: TypedModInt)
        requires
            operands_wf(self.operands()),
        ensures
            r.operation() == self.operation(),
            slots_hold(r.slots(), self.operands()),
    {
        match self {
            TypedModIntPrototype::DurationObjFromU64(x0) => {
                proof {
                    lemma_slots_hold_1(Slot::Scalar(*x0 as int), OperandView::U64(*x0));
                }
                TypedModInt::DurationObjFromU64(*x0)
            },
            TypedModIntPrototype::DurationObjToU64(x0) => {
                proof {
                    assert(operand_wf(self.operands()[0]));
                }
                let y0 = adapt_val(env, x0);
                proof {
                    lemma_slots_hold_1(Slot::Val(y0.0), OperandView::Val(x0@));
                }
                TypedModInt::DurationObjToU64(y0)
            },
            TypedModIntPrototype::I256Add(x0, x1) => {
                proof {
                    assert(operand_wf(self.operands()[0]));
                    assert(operand_wf(self.operands()[1]));
                }
                let y0 = adapt_val(env, x0);
                let y1 = adapt_val(env, x1);
                proof {
                    lemma_slots_hold_2(
                        Slot::Val(y0.0),
                        OperandView::Val(x0@),
                        Slot::Val(y1.0),
                        OperandView::Val(x1@),
                    );
                }
                TypedModInt::I256Add(y0, y1)
            },
            TypedModIntPrototype::I256Div(x0, x1) => {
                proof {
                    assert(operand_wf(self.operands()[0]));
                    assert(operand_wf(self.operands()[1]));
                }
                let y0 = adapt_val(env, x0);
                let y1 = adapt_val(env, x1);
                proof {
                    lemma_slots_hold_2(
                        Slot::Val(y0.0),
                        OperandView::Val(x0@),
                        Slot::Val(y1.0),
                        OperandView::Val(x1@),
                    );
                }
                TypedModInt::I256Div(y0, y1)
            },
            TypedModIntPrototype::I256Mul(x0, x1) => {
                proof {
                    assert(operand_wf(self.operands()[0]));
                    assert(operand_wf(self.operands()[1]));
                }
                let y0 = adapt_val(env, x0);
                let y1 = adapt_val(env, x1);
                proof {
                    lemma_slots_hold_2(
                        Slot::Val(y0.0),
                        OperandView::Val(x0@),
                        Slot::Val(y1.0),
                        OperandView::Val(x1@),
                    );
                }
                TypedModInt::I256Mul(y0, y1)
            },
            TypedModIntPrototype::I256ObjFromBeBytes(x0) => {
                let y0 = adapt_bytes(env, x0);
                proof {
                    lemma_slots_hold_1(Slot::Bytes(bytes_of(y0)), OperandView::Bytes(x0.bytes@));
                }
                TypedModInt::I256ObjFromBeBytes(y0)
            },
            TypedModIntPrototype::I256ObjToBeBytes(x0) => {
                proof {
                    assert(operand_wf(self.operands()[0]));
                }
                let y0 = adapt_val(env, x0);
                proof {
                    lemma_slots_hold_1(Slot::Val(y0.0), OperandView::Val(x0@));
                }
                TypedModInt::I256ObjToBeBytes(y0)
            },
            TypedModIntPrototype::I256Pow(x0, x1) => {
                proof {
                    assert(operand_wf(self.operands()[0]));
                }
                let y0 = adapt_val(env, x0);
                proof {
                    lemma_slots_hold_2(
                        Slot::Val(y0.0),
                        OperandView::Val(x0@),
                        Slot::Scalar(*x1 as int),
                        OperandView::U32(*x1),
                    );
                }
                TypedModInt::I256Pow(y0, *x1)
            },
            TypedModIntPrototype::I256Shl(x0, x1) => {
                proof {
                    assert(operand_wf(self.operands()[0]));
                }
                let y0 = adapt_val(env, x0);
                proof {
                    lemma_slots_hold_2(
                        Slot::Val(y0.0),
                        OperandView::Val(x0@),
                        Slot::Scalar(*x1 as int),
                        OperandView::U32(*x1),
                    );
                }
                TypedModInt::I256Shl(y0, *x1)
            },
            TypedModIntPrototype::I256Shr(x0, x1) => {
                proof {
                    assert(operand_wf(self.operands()[0]));
                }
                let y0 = adapt_val(env, x0);
                proof {
                    lemma_slots_hold_2(
                        Slot::Val(y0.0),
                        OperandView::Val(x0@),
                        Slot::Scalar(*x1 as int),
                        OperandView::U32(*x1),
                    );
                }
                TypedModInt::I256Shr(y0, *x1)
            },
            TypedModIntPrototype::I256Sub(x0, x1) => {
                proof {
                    assert(operand_wf(self.operands()[0]));
                    assert(operand_wf(self.operands()[1]));
                }
                let y0 = adapt_val(env, x0);
                let y1 = adapt_val(env, x1);
                proof {
                    lemma_slots_hold_2(
                        Slot::Val(y0.0),
                        OperandView::Val(x0@),
                        Slot::Val(y1.0),
                        OperandView::Val(x1@),
                    );
                }
                TypedModInt::I256Sub(y0, y1)
            },
            TypedModIntPrototype::ObjFromI64(x0) => {
                proof {
                    lemma_slots_hold_1(Slot::Scalar(*x0 as int), OperandView::I64(*x0));
                }
                TypedModInt::ObjFromI64(*x0)
            },
            TypedModIntPrototype::ObjFromI128Pieces(x0, x1) => {
                proof {
                    lemma_slots_hold_2(
                        Slot::Scalar(*x0 as int),
                        OperandView::I64(*x0),
                        Slot::Scalar(*x1 as int),
                        OperandView::U64(*x1),
                    );
                }
                TypedModInt::ObjFromI128Pieces(*x0, *x1)
            },
            TypedModIntPrototype::ObjFromI256Pieces(x0, x1, x2, x3) => {
                proof {
                    lemma_slots_hold_4(
                        Slot::Scalar(*x0 as int),
                        OperandView::I64(*x0),
                        Slot::Scalar(*x1 as int),
                        OperandView::U64(*x1),
                        Slot::Scalar(*x2 as int),
                        OperandView::U64(*x2),
                        Slot::Scalar(*x3 as int),
                        OperandView::U64(*x3),
                    );
                }
                TypedModInt::ObjFromI256Pieces(*x0, *x1, *x2, *x3)
            },
            TypedModIntPrototype::ObjFromU64(x0) => {
                proof {
                    lemma_slots_hold_1(Slot::Scalar(*x0 as int), OperandView::U64(*x0));
                }
                TypedModInt::ObjFromU64(*x0)
            },
            TypedModIntPrototype::ObjFromU128Pieces(x0, x1) => {
                proof {
                    lemma_slots_hold_2(
                        Slot::Scalar(*x0 as int),
                        OperandView::U64(*x0),
                        Slot::Scalar(*x1 as int),
                        OperandView::U64(*x1),
                    );
                }
                TypedModInt::ObjFromU128Pieces(*x0, *x1)
            },
            TypedModIntPrototype::ObjFromU256Pieces(x0, x1, x2, x3) => {
                proof {
                    lemma_slots_hold_4(
                        Slot::Scalar(*x0 as int),
                        OperandView::U64(*x0),
                        Slot::Scalar(*x1 as int),
                        OperandView::U64(*x1),
                        Slot::Scalar(*x2 as int),
                        OperandView::U64(*x2),
                        Slot::Scalar(*x3 as int),
                        OperandView::U64(*x3),
                    );
                }
                TypedModInt::ObjFromU256Pieces(*x0, *x1, *x2, *x3)
            },
            TypedModIntPrototype::ObjToI64(x0) => {
                proof {
                    lemma_slots_hold_1(Slot::Scalar(*x0 as int), OperandView::I64(*x0));
                }
                TypedModInt::ObjToI64(*x0)
            },
            TypedModIntPrototype::ObjToI128Hi64(x0) => {
                proof {
                    lemma_slots_hold_1(Slot::Scalar(*x0 as int), OperandView::I128(*x0));
                }
                TypedModInt::ObjToI128Hi64(*x0)
            },
            TypedModIntPrototype::ObjToI128Lo64(x0) => {
                proof {
                    lemma_slots_hold_1(Slot::Scalar(*x0 as int), OperandView::I128(*x0));
                }
                TypedModInt::ObjToI128Lo64(*x0)
            },
            TypedModIntPrototype::ObjToI256HiHi(x0) => {
                proof {
                    assert(operand_wf(self.operands()[0]));
                }
                let y0 = adapt_val(env, x0);
                proof {
                    lemma_slots_hold_1(Slot::Val(y0.0), OperandView::Val(x0@));
                }
                TypedModInt::ObjToI256HiHi(y0)
            },
            TypedModIntPrototype::ObjToI256HiLo(x0) => {
                proof {
                    assert(operand_wf(self.operands()[0]));
                }
                let y0 = adapt_val(env, x0);
                proof {
                    lemma_slots_hold_1(Slot::Val(y0.0), OperandView::Val(x0@));
                }
                TypedModInt::ObjToI256HiLo(y0)
            },
            TypedModIntPrototype::ObjToI256LoHi(x0) => {
                proof {
                    assert(operand_wf(self.operands()[0]));
                }
                let y0 = adapt_val(env, x0);
                proof {
                    lemma_slots_hold_1(Slot::Val(y0.0), OperandView::Val(x0@));
                }
                TypedModInt::ObjToI256LoHi(y0)
            },
            TypedModIntPrototype::ObjToI256LoLo(x0) => {
                proof {
                    assert(operand_wf(self.operands()[0]));
                }
                let y0 = adapt_val(env, x0);
                proof {
                    lemma_slots_hold_1(Slot::Val(y0.0), OperandView::Val(x0@));
                }
                TypedModInt::ObjToI256LoLo(y0)
            },
            TypedModIntPrototype::ObjToU64(x0) => {
                proof {
                    lemma_slots_hold_1(Slot::Scalar(*x0 as int), OperandView::U64(*x0));
                }
                TypedModInt::ObjToU64(*x0)
            },
            TypedModIntPrototype::ObjToU128Hi64(x0) => {
                proof {
                    lemma_slots_hold_1(Slot::Scalar(*x0 as int), OperandView::U128(*x0));
                }
                TypedModInt::ObjToU128Hi64(*x0)
            },
            TypedModIntPrototype::ObjToU128Lo64(x0) => {
                proof {
                    lemma_slots_hold_1(Slot::Scalar(*x0 as int), OperandView::U128(*x0));
                }
                TypedModInt::ObjToU128Lo64(*x0)
            },
            TypedModIntPrototype::ObjToU256HiHi(x0) => {
                proof {
                    assert(operand_wf(self.operands()[0]));
                }
                let y0 = adapt_val(env, x0);
                proof {
                    lemma_slots_hold_1(Slot::Val(y0.0), OperandView::Val(x0@));
                }
                TypedModInt::ObjToU256HiHi(y0)
            },
            TypedModIntPrototype::ObjToU256HiLo(x0) => {
                proof {
                    assert(operand_wf(self.operands()[0]));
                }
                let y0 = adapt_val(env, x0);
                proof {
                    lemma_slots_hold_1(Slot::Val(y0.0), OperandView::Val(x0@));
                }
                TypedModInt::ObjToU256HiLo(y0)
            },
            TypedModIntPrototype::ObjToU256LoHi(x0) => {
                proof {
                    assert(operand_wf(self.operands()[0]));
                }
                let y0 = adapt_val(env, x0);
                proof {
                    lemma_slots_hold_1(Slot::Val(y0.0), OperandView::Val(x0@));
                }
                TypedModInt::ObjToU256LoHi(y0)
            },
            TypedModIntPrototype::ObjToU256LoLo(x0) => {
                proof {
                    assert(operand_wf(self.operands()[0]));
                }
                let y0 = adapt_val(env, x0);
                proof {
                    lemma_slots_hold_1(Slot::Val(y0.0), OperandView::Val(x0@));
                }
                TypedModInt::ObjToU256LoLo(y0)
            },
            TypedModIntPrototype::TimepointObjFromU64(x0) => {
                proof {
                    lemma_slots_hold_1(Slot::Scalar(*x0 as int), OperandView::U64(*x0));
                }
                TypedModInt::TimepointObjFromU64(*x0)
            },
            TypedModIntPrototype::TimepointObjToU64(x0) => {
                proof {
                    assert(operand_wf(self.operands()[0]));
                }
                let y0 = adapt_val(env, x0);
                proof {
                    lemma_slots_hold_1(Slot::Val(y0.0), OperandView::Val(x0@));
                }
                TypedModInt::TimepointObjToU64(y0)
            },
            TypedModIntPrototype::U256Add(x0, x1) => {
                proof {
                    assert(operand_wf(self.operands()[0]));
                    assert(operand_wf(self.operands()[1]));
                }
                let y0 = adapt_val(env, x0);
                let y1 = adapt_val(env, x1);
                proof {
                    lemma_slots_hold_2(
                        Slot::Val(y0.0),
                        OperandView::Val(x0@),
                        Slot::Val(y1.0),
                        OperandView::Val(x1@),
                    );
                }
                TypedModInt::U256Add(y0, y1)
            },
            TypedModIntPrototype::U256Div(x0, x1) => {
                proof {
                    assert(operand_wf(self.operands()[0]));
                    assert(operand_wf(self.operands()[1]));
                }
                let y0 = adapt_val(env, x0);
                let y1 = adapt_val(env, x1);
                proof {
                    lemma_slots_hold_2(
                        Slot::Val(y0.0),
                        OperandView::Val(x0@),
                        Slot::Val(y1.0),
                        OperandView::Val(x1@),
                    );
                }
                TypedModInt::U256Div(y0, y1)
            },
            TypedModIntPrototype::U256Mul(x0, x1) => {
                proof {
                    assert(operand_wf(self.operands()[0]));
                    assert(operand_wf(self.operands()[1]));
                }
                let y0 = adapt_val(env, x0);
                let y1 = adapt_val(env, x1);
                proof {
                    lemma_slots_hold_2(
                        Slot::Val(y0.0),
                        OperandView::Val(x0@),
                        Slot::Val(y1.0),
                        OperandView::Val(x1@),
                    );
                }
                TypedModInt::U256Mul(y0, y1)
            },
            TypedModIntPrototype::U256ValFromBeBytes(x0) => {
                let y0 = adapt_bytes(env, x0);
                proof {
                    lemma_slots_hold_1(Slot::Bytes(bytes_of(y0)), OperandView::Bytes(x0.bytes@));
                }
                TypedModInt::U256ValFromBeBytes(y0)
            },
            TypedModIntPrototype::U256ValToBeBytes(x0) => {
                proof {
                    assert(operand_wf(self.operands()[0]));
                }
                let y0 = adapt_val(env, x0);
                proof {
                    lemma_slots_hold_1(Slot::Val(y0.0), OperandView::Val(x0@));
                }
                TypedModInt::U256ValToBeBytes(y0)
            },
            TypedModIntPrototype::U256Pow(x0, x1) => {
                proof {
                    assert(operand_wf(self.operands()[0]));
                }
                let y0 = adapt_val(env, x0);
                proof {
                    lemma_slots_hold_2(
                        Slot::Val(y0.0),
                        OperandView::Val(x0@),
                        Slot::Scalar(*x1 as int),
                        OperandView::U32(*x1),
                    );
                }
                TypedModInt::U256Pow(y0, *x1)
            },
            TypedModIntPrototype::U256Shl(x0, x1) => {
                proof {
                    assert(operand_wf(self.operands()[0]));
                }
                let y0 = adapt_val(env, x0);
                proof {
                    lemma_slots_hold_2(
                        Slot::Val(y0.0),
                        OperandView::Val(x0@),
                        Slot::Scalar(*x1 as int),
                        OperandView::U32(*x1),
                    );
                }
                TypedModInt::U256Shl(y0, *x1)
            },
            TypedModIntPrototype::U256Shr(x0, x1) => {
                proof {
                    assert(operand_wf(self.operands()[0]));
                }
                let y0 = adapt_val(env, x0);
                proof {
                    lemma_slots_hold_2(
                        Slot::Val(y0.0),
                        OperandView::Val(x0@),
                        Slot::Scalar(*x1 as int),
                        OperandView::U32(*x1),
                    );
                }
                TypedModInt::U256Shr(y0, *x1)
            },
            TypedModIntPrototype::U256Sub(x0, x1) => {
                proof {
                    assert(operand_wf(self.operands()[0]));
                    assert(operand_wf(self.operands()[1]));
                }
                let y0 = adapt_val(env, x0);
                let y1 = adapt_val(env, x1);
                proof {
                    lemma_slots_hold_2(
                        Slot::Val(y0.0),
                        OperandView::Val(x0@),
                        Slot::Val(y1.0),
                        OperandView::Val(x1@),
                    );
                }
                TypedModInt::U256Sub(y0, y1)
            },
        }
    }
}

impl TypedModLedgerPrototype {
    /// The operation with its operands placed in `env`.
    pub fn to_guest(&self, env: &Env) -> (r: TypedModLedger)
        requires
            operands_wf(self.operands()),
        ensures
            r.operation() == self.operation(),
            slots_hold(r.slots(), self.operands()),
    {
        match self {
            TypedModLedgerPrototype::BumpContractData(x0, x1) => {
                proof {
                    assert(operand_wf(self.operands()[0]));
                }
                let y0 = adapt_val(env, x0);
                proof {
                    lemma_slots_hold_2(
                        Slot::Val(y0.0),
                        OperandView::Val(x0@),
                        Slot::Scalar(*x1 as int),
                        OperandView::U32(*x1),
                    );
                }
                TypedModLedger::BumpContractData(y0, *x1)
            },
            TypedModLedgerPrototype::CreateAssetContract(x0) => {
                let y0 = adapt_bytes(env, x0);
                proof {
                    lemma_slots_hold_1(Slot::Bytes(bytes_of(y0)), OperandView::Bytes(x0.bytes@));
                }
                TypedModLedger::CreateAssetContract(y0)
            },
            TypedModLedgerPrototype::CreateContract(x0, x1, x2) => {
                proof {
                    assert(operand_wf(self.operands()[0]));
                }
                let y0 = adapt_address(env, x0);
                let y1 = adapt_bytes(env, x1);
                let y2 = adapt_bytes(env, x2);
                proof {
                    lemma_slots_hold_3(
                        Slot::Address(contract_id_of(y0)),
                        OperandView::Address(x0.contract_id@),
                        Slot::Bytes(bytes_of(y1)),
                        OperandView::Bytes(x1.bytes@),
                        Slot::Bytes(bytes_of(y2)),
                        OperandView::Bytes(x2.bytes@),
                    );
                }
                TypedModLedger::CreateContract(y0, y1, y2)
            },
            TypedModLedgerPrototype::DelContractData(x0) => {
                proof {
                    assert(operand_wf(self.operands()[0]));
                }
                let y0 = adapt_val(env, x0);
                proof {
                    lemma_slots_hold_1(Slot::Val(y0.0), OperandView::Val(x0@));
                }
                TypedModLedger::DelContractData(y0)
            },
            TypedModLedgerPrototype::GetAssetContractId(x0) => {
                let y0 = adapt_bytes(env, x0);
                proof {
                    lemma_slots_hold_1(Slot::Bytes(bytes_of(y0)), OperandView::Bytes(x0.bytes@));
                }
                TypedModLedger::GetAssetContractId(y0)
            },
            TypedModLedgerPrototype::GetContractData(x0) => {
                proof {
                    assert(operand_wf(self.operands()[0]));
                }
                let y0 = adapt_val(env, x0);
                proof {
                    lemma_slots_hold_1(Slot::Val(y0.0), OperandView::Val(x0@));
                }
                TypedModLedger::GetContractData(y0)
            },
            TypedModLedgerPrototype::GetContractId(x0, x1) => {
                proof {
                    assert(operand_wf(self.operands()[0]));
                }
                let y0 = adapt_address(env, x0);
                let y1 = adapt_bytes(env, x1);
                proof {
                    lemma_slots_hold_2(
                        Slot::Address(contract_id_of(y0)),
                        OperandView::Address(x0.contract_id@),
                        Slot::Bytes(bytes_of(y1)),
                        OperandView::Bytes(x1.bytes@),
                    );
                }
                TypedModLedger::GetContractId(y0, y1)
            },
            TypedModLedgerPrototype::HasContractData(x0) => {
                proof {
                    assert(operand_wf(self.operands()[0]));
                }
                let y0 = adapt_val(env, x0);
                proof {
                    lemma_slots_hold_1(Slot::Val(y0.0), OperandView::Val(x0@));
                }
                TypedModLedger::HasContractData(y0)
            },
            TypedModLedgerPrototype::PutContractData(x0, x1, x2) => {
                proof {
                    assert(operand_wf(self.operands()[0]));
                    assert(operand_wf(self.operands()[1]));
                    assert(operand_wf(self.operands()[2]));
                }
                let y0 = adapt_val(env, x0);
                let y1 = adapt_val(env, x1);
                let y2 = adapt_val(env, x2);
                proof {
                    lemma_slots_hold_3(
                        Slot::Val(y0.0),
                        OperandView::Val(x0@),
                        Slot::Val(y1.0),
                        OperandView::Val(x1@),
                        Slot::Val(y2.0),
                        OperandView::Val(x2@),
                    );
                }
                TypedModLedger::PutContractData(y0, y1, y2)
            },
            TypedModLedgerPrototype::UpdateCurrentContractWasm(x0) => {
                let y0 = adapt_bytes(env, x0);
                proof {
                    lemma_slots_hold_1(Slot::Bytes(bytes_of(y0)), OperandView::Bytes(x0.bytes@));
                }
                TypedModLedger::UpdateCurrentContractWasm(y0)
            },
            TypedModLedgerPrototype::UploadWasm(x0) => {
                let y0 = adapt_bytes(env, x0);
                proof {
                    lemma_slots_hold_1(Slot::Bytes(bytes_of(y0)), OperandView::Bytes(x0.bytes@));
                }
                TypedModLedger::UploadWasm(y0)
            },
        }
    }
}

impl TypedModMapPrototype {
    /// The operation with its operands placed in `env`.
    pub fn to_guest(&self, env: &Env) -> (r: TypedModMap)
        requires
            operands_wf(self.operands()),
        ensures
            r.operation() == self.operation(),
            slots_hold(r.slots(), self.operands()),
    {
        match self {
            TypedModMapPrototype::MapDel(x0, x1) => {
                proof {
                    assert(operand_wf(self.operands()[0]));
                    assert(operand_wf(self.operands()[1]));
                }
                let y0 = adapt_val_map(env, x0);
                let y1 = adapt_val(env, x1);
                proof {
                    lemma_slots_hold_2(
                        Slot::Table,
                        OperandView::ValMap(x0.entries_view()),
                        Slot::Val(y1.0),
                        OperandView::Val(x1@),
                    );
                }
                TypedModMap::MapDel(y0, y1)
            },
            TypedModMapPrototype::MapGet(x0, x1) => {
                proof {
                    assert(operand_wf(self.operands()[0]));
                    assert(operand_wf(self.operands()[1]));
                }
                let y0 = adapt_val_map(env, x0);
                let y1 = adapt_val(env, x1);
                proof {
                    lemma_slots_hold_2(
                        Slot::Table,
                        OperandView::ValMap(x0.entries_view()),
                        Slot::Val(y1.0),
                        OperandView::Val(x1@),
                    );
                }
                TypedModMap::MapGet(y0, y1)
            },
            TypedModMapPrototype::MapHas(x0, x1) => {
                proof {
                    assert(operand_wf(self.operands()[0]));
                    assert(operand_wf(self.operands()[1]));
                }
                let y0 = adapt_val_map(env, x0);
                let y1 = adapt_val(env, x1);
                proof {
                    lemma_slots_hold_2(
                        Slot::Table,
                        OperandView::ValMap(x0.entries_view()),
                        Slot::Val(y1.0),
                        OperandView::Val(x1@),
                    );
                }
                TypedModMap::MapHas(y0, y1)
            },
            TypedModMapPrototype::MapKeys(x0) => {
                proof {
                    assert(operand_wf(self.operands()[0]));
                }
                let y0 = adapt_val_map(env, x0);
                proof {
                    lemma_slots_hold_1(Slot::Table, OperandView::ValMap(x0.entries_view()));
                }
                TypedModMap::MapKeys(y0)
            },
            TypedModMapPrototype::MapLen(x0) => {
                proof {
                    assert(operand_wf(self.operands()[0]));
                }
                let y0 = adapt_val_map(env, x0);
                proof {
                    lemma_slots_hold_1(Slot::Table, OperandView::ValMap(x0.entries_view()));
                }
                TypedModMap::MapLen(y0)
            },
            TypedModMapPrototype::MapMaxKey(x0) => {
                proof {
                    assert(operand_wf(self.operands()[0]));
                }
                let y0 = adapt_val_map(env, x0);
                proof {
                    lemma_slots_hold_1(Slot::Table, OperandView::ValMap(x0.entries_view()));
                }
                TypedModMap::MapMaxKey(y0)
            },
            TypedModMapPrototype::MapMinKey(x0) => {
                proof {
                    assert(operand_wf(self.operands()[0]));
                }
                let y0 = adapt_val_map(env, x0);
                proof {
                    lemma_slots_hold_1(Slot::Table, OperandView::ValMap(x0.entries_view()));
                }
                TypedModMap::MapMinKey(y0)
            },
            TypedModMapPrototype::MapNew => TypedModMap::MapNew,
            TypedModMapPrototype::MapNewFromLinearMemory(x0, x1, x2) => {
                proof {
                    lemma_slots_hold_3(
                        Slot::Scalar(*x0 as int),
                        OperandView::U32(*x0),
                        Slot::Scalar(*x1 as int),
                        OperandView::U32(*x1),
                        Slot::Scalar(*x2 as int),
                        OperandView::U32(*x2),
                    );
                }
                TypedModMap::MapNewFromLinearMemory(*x0, *x1, *x2)
            },
            TypedModMapPrototype::MapNextKey(x0, x1) => {
                proof {
                    assert(operand_wf(self.operands()[0]));
                    assert(operand_wf(self.operands()[1]));
                }
                let y0 = adapt_val_map(env, x0);
                let y1 = adapt_val(env, x1);
                proof {
                    lemma_slots_hold_2(
                        Slot::Table,
                        OperandView::ValMap(x0.entries_view()),
                        Slot::Val(y1.0),
                        OperandView::Val(x1@),
                    );
                }
                TypedModMap::MapNextKey(y0, y1)
            },
            TypedModMapPrototype::MapPrevKey(x0, x1) => {
                proof {
                    assert(operand_wf(self.operands()[0]));
                    assert(operand_wf(self.operands()[1]));
                }
                let y0 = adapt_val_map(env, x0);
                let y1 = adapt_val(env, x1);
                proof {
                    lemma_slots_hold_2(
                        Slot::Table,
                        OperandView::ValMap(x0.entries_view()),
                        Slot::Val(y1.0),
                        OperandView::Val(x1@),
                    );
                }
                TypedModMap::MapPrevKey(y0, y1)
            },
            TypedModMapPrototype::MapPut(x0, x1, x2) => {
                proof {
                    assert(operand_wf(self.operands()[0]));
                    assert(operand_wf(self.operands()[1]));
                    assert(operand_wf(self.operands()[2]));
                }
                let y0 = adapt_val_map(env, x0);
                let y1 = adapt_val(env, x1);
                let y2 = adapt_val(env, x2);
                proof {
                    lemma_slots_hold_3(
                        Slot::Table,
                        OperandView::ValMap(x0.entries_view()),
                        Slot::Val(y1.0),
                        OperandView::Val(x1@),
                        Slot::Val(y2.0),
                        OperandView::Val(x2@),
                    );
                }
                TypedModMap::MapPut(y0, y1, y2)
            },
            TypedModMapPrototype::MapUnpackToLinearMemory(x0, x1, x2, x3) => {
                proof {
                    assert(operand_wf(self.operands()[0]));
                }
                let y0 = adapt_val_map(env, x0);
                proof {
                    lemma_slots_hold_4(
                        Slot::Table,
                        OperandView::ValMap(x0.entries_view()),
                        Slot::Scalar(*x1 as int),
                        OperandView::U32(*x1),
                        Slot::Scalar(*x2 as int),
                        OperandView::U32(*x2),
                        Slot::Scalar(*x3 as int),
                        OperandView::U32(*x3),
                    );
                }
                TypedModMap::MapUnpackToLinearMemory(y0, *x1, *x2, *x3)
            },
            TypedModMapPrototype::MapValues(x0) => {
                proof {
                    assert(operand_wf(self.operands()[0]));
                }
                let y0 = adapt_val_map(env, x0);
                proof {
                    lemma_slots_hold_1(Slot::Table, OperandView::ValMap(x0.entries_view()));
                }
                TypedModMap::MapValues(y0)
            },
        }
    }
}

impl TypedModPrngPrototype {
    /// The operation with its operands placed in `env`.
    pub fn to_guest(&self, env: &Env) -> (r: TypedModPrng)
        requires
            operands_wf(self.operands()),
        ensures
            r.operation() == self.operation(),
            slots_hold(r.slots(), self.operands()),
    {
        match self {
            TypedModPrngPrototype::PrngBytesNew(x0) => {
                proof {
                    lemma_slots_hold_1(Slot::Scalar(*x0 as int), OperandView::U32(*x0));
                }
                TypedModPrng::PrngBytesNew(*x0)
            },
            TypedModPrngPrototype::PrngReseed(x0) => {
                let y0 = adapt_bytes(env, x0);
                proof {
                    lemma_slots_hold_1(Slot::Bytes(bytes_of(y0)), OperandView::Bytes(x0.bytes@));
                }
                TypedModPrng::PrngReseed(y0)
            },
            TypedModPrngPrototype::PrngU64InInclusiveRange(x0, x1) => {
                proof {
                    lemma_slots_hold_2(
                        Slot::Scalar(*x0 as int),
                        OperandView::U64(*x0),
                        Slot::Scalar(*x1 as int),
                        OperandView::U64(*x1),
                    );
                }
                TypedModPrng::PrngU64InInclusiveRange(*x0, *x1)
            },
            TypedModPrngPrototype::PrngVecShuffle(x0) => {
                proof {
                    assert(operand_wf(self.operands()[0]));
                }
                let y0 = adapt_val_vec(env, x0);
                proof {
                    lemma_slots_hold_1(
                        Slot::Vec(vec_items(y0)),
                        OperandView::ValVec(x0.items_view()),
                    );
                }
                TypedModPrng::PrngVecShuffle(y0)
            },
        }
    }
}

impl TypedModVecPrototype {
    /// The operation with its operands placed in `env`.
    pub fn to_guest(&self, env: &Env) -> (r: TypedModVec)
        requires
            operands_wf(self.operands()),
        ensures
            r.operation() == self.operation(),
            slots_hold(r.slots(), self.operands()),
    {
        match self {
            TypedModVecPrototype::VecAppend(x0, x1) => {
                proof {
                    assert(operand_wf(self.operands()[0]));
                    assert(operand_wf(self.operands()[1]));
                }
                let y0 = adapt_val_vec(env, x0);
                let y1 = adapt_val_vec(env, x1);
                proof {
                    lemma_slots_hold_2(
                        Slot::Vec(vec_items(y0)),
                        OperandView::ValVec(x0.items_view()),
                        Slot::Vec(vec_items(y1)),
                        OperandView::ValVec(x1.items_view()),
                    );
                }
                TypedModVec::VecAppend(y0, y1)
            },
            TypedModVecPrototype::VecBack(x0) => {
                proof {
                    assert(operand_wf(self.operands()[0]));
                }
                let y0 = adapt_val_vec(env, x0);
                proof {
                    lemma_slots_hold_1(
                        Slot::Vec(vec_items(y0)),
                        OperandView::ValVec(x0.items_view()),
                    );
                }
                TypedModVec::VecBack(y0)
            },
            TypedModVecPrototype::VecBinarySearch(x0, x1) => {
                proof {
                    assert(operand_wf(self.operands()[0]));
                    assert(operand_wf(self.operands()[1]));
                }
                let y0 = adapt_val_vec(env, x0);
                let y1 = adapt_val(env, x1);
                proof {
                    lemma_slots_hold_2(
                        Slot::Vec(vec_items(y0)),
                        OperandView::ValVec(x0.items_view()),
                        Slot::Val(y1.0),
                        OperandView::Val(x1@),
                    );
                }
                TypedModVec::VecBinarySearch(y0, y1)
            },
            TypedModVecPrototype::VecDel(x0, x1) => {
                proof {
                    assert(operand_wf(self.operands()[0]));
                }
                let y0 = adapt_val_vec(env, x0);
                proof {
                    lemma_slots_hold_2(
                        Slot::Vec(vec_items(y0)),
                        OperandView::ValVec(x0.items_view()),
                        Slot::Scalar(*x1 as int),
                        OperandView::U32(*x1),
                    );
                }
                TypedModVec::VecDel(y0, *x1)
            },
            TypedModVecPrototype::VecFirstIndexOf(x0, x1) => {
                proof {
                    assert(operand_wf(self.operands()[0]));
                    assert(operand_wf(self.operands()[1]));
                }
                let y0 = adapt_val_vec(env, x0);
                let y1 = adapt_val(env, x1);
                proof {
                    lemma_slots_hold_2(
                        Slot::Vec(vec_items(y0)),
                        OperandView::ValVec(x0.items_view()),
                        Slot::Val(y1.0),
                        OperandView::Val(x1@),
                    );
                }
                TypedModVec::VecFirstIndexOf(y0, y1)
            },
            TypedModVecPrototype::VecFront(x0) => {
                proof {
                    assert(operand_wf(self.operands()[0]));
                }
                let y0 = adapt_val_vec(env, x0);
                proof {
                    lemma_slots_hold_1(
                        Slot::Vec(vec_items(y0)),
                        OperandView::ValVec(x0.items_view()),
                    );
                }
                TypedModVec::VecFront(y0)
            },
            TypedModVecPrototype::VecGet(x0, x1) => {
                proof {
                    assert(operand_wf(self.operands()[0]));
                }
                let y0 = adapt_val_vec(env, x0);
                proof {
                    lemma_slots_hold_2(
                        Slot::Vec(vec_items(y0)),
                        OperandView::ValVec(x0.items_view()),
                        Slot::Scalar(*x1 as int),
                        OperandView::U32(*x1),
                    );
                }
                TypedModVec::VecGet(y0, *x1)
            },
            TypedModVecPrototype::VecInsert(x0, x1, x2) => {
                proof {
                    assert(operand_wf(self.operands()[0]));
                    assert(operand_wf(self.operands()[2]));
                }
                let y0 = adapt_val_vec(env, x0);
                let y2 = adapt_val(env, x2);
                proof {
                    lemma_slots_hold_3(
                        Slot::Vec(vec_items(y0)),
                        OperandView::ValVec(x0.items_view()),
                        Slot::Scalar(*x1 as int),
                        OperandView::U32(*x1),
                        Slot::Val(y2.0),
                        OperandView::Val(x2@),
                    );
                }
                TypedModVec::VecInsert(y0, *x1, y2)
            },
            TypedModVecPrototype::VecLastIndexOf(x0, x1) => {
                proof {
                    assert(operand_wf(self.operands()[0]));
                    assert(operand_wf(self.operands()[1]));
                }
                let y0 = adapt_val_vec(env, x0);
                let y1 = adapt_val(env, x1);
                proof {
                    lemma_slots_hold_2(
                        Slot::Vec(vec_items(y0)),
                        OperandView::ValVec(x0.items_view()),
                        Slot::Val(y1.0),
                        OperandView::Val(x1@),
                    );
                }
                TypedModVec::VecLastIndexOf(y0, y1)
            },
            TypedModVecPrototype::VecLen(x0) => {
                proof {
                    assert(operand_wf(self.operands()[0]));
                }
                let y0 = adapt_val_vec(env, x0);
                proof {
                    lemma_slots_hold_1(
                        Slot::Vec(vec_items(y0)),
                        OperandView::ValVec(x0.items_view()),
                    );
                }
                TypedModVec::VecLen(y0)
            },
            TypedModVecPrototype::VecNew(x0) => {
                proof {
                    assert(operand_wf(self.operands()[0]));
                }
                let y0 = adapt_val(env, x0);
                proof {
                    lemma_slots_hold_1(Slot::Val(y0.0), OperandView::Val(x0@));
                }
                TypedModVec::VecNew(y0)
            },
            TypedModVecPrototype::VecNewFromLinearMemory(x0, x1) => {
                proof {
                    lemma_slots_hold_2(
                        Slot::Scalar(*x0 as int),
                        OperandView::U32(*x0),
                        Slot::Scalar(*x1 as int),
                        OperandView::U32(*x1),
                    );
                }
                TypedModVec::VecNewFromLinearMemory(*x0, *x1)
            },
            TypedModVecPrototype::VecPopBack(x0) => {
                proof {
                    assert(operand_wf(self.operands()[0]));
                }
                let y0 = adapt_val_vec(env, x0);
                proof {
                    lemma_slots_hold_1(
                        Slot::Vec(vec_items(y0)),
                        OperandView::ValVec(x0.items_view()),
                    );
                }
                TypedModVec::VecPopBack(y0)
            },
            TypedModVecPrototype::VecPopFront(x0) => {
                proof {
                    assert(operand_wf(self.operands()[0]));
                }
                let y0 = adapt_val_vec(env, x0);
                proof {
                    lemma_slots_hold_1(
                        Slot::Vec(vec_items(y0)),
                        OperandView::ValVec(x0.items_view()),
                    );
                }
                TypedModVec::VecPopFront(y0)
            },
            TypedModVecPrototype::VecPushBack(x0, x1) => {
                proof {
                    assert(operand_wf(self.operands()[0]));
                    assert(operand_wf(self.operands()[1]));
                }
                let y0 = adapt_val_vec(env, x0);
                let y1 = adapt_val(env, x1);
                proof {
                    lemma_slots_hold_2(
                        Slot::Vec(vec_items(y0)),
                        OperandView::ValVec(x0.items_view()),
                        Slot::Val(y1.0),
                        OperandView::Val(x1@),
                    );
                }
                TypedModVec::VecPushBack(y0, y1)
            },
            TypedModVecPrototype::VecPushFront(x0, x1) => {
                proof {
                    assert(operand_wf(self.operands()[0]));
                    assert(operand_wf(self.operands()[1]));
                }
                let y0 = adapt_val_vec(env, x0);
                let y1 = adapt_val(env, x1);
                proof {
                    lemma_slots_hold_2(
                        Slot::Vec(vec_items(y0)),
                        OperandView::ValVec(x0.items_view()),
                        Slot::Val(y1.0),
                        OperandView::Val(x1@),
                    );
                }
                TypedModVec::VecPushFront(y0, y1)
            },
            TypedModVecPrototype::VecPut(x0, x1, x2) => {
                proof {
                    assert(operand_wf(self.operands()[0]));
                    assert(operand_wf(self.operands()[2]));
                }
                let y0 = adapt_val_vec(env, x0);
                let y2 = adapt_val(env, x2);
                proof {
                    lemma_slots_hold_3(
                        Slot::Vec(vec_items(y0)),
                        OperandView::ValVec(x0.items_view()),
                        Slot::Scalar(*x1 as int),
                        OperandView::U32(*x1),
                        Slot::Val(y2.0),
                        OperandView::Val(x2@),
                    );
                }
                TypedModVec::VecPut(y0, *x1, y2)
            },
            TypedModVecPrototype::VecSlice(x0, x1, x2) => {
                proof {
                    assert(operand_wf(self.operands()[0]));
                }
                let y0 = adapt_val_vec(env, x0);
                proof {
                    lemma_slots_hold_3(
                        Slot::Vec(vec_items(y0)),
                        OperandView::ValVec(x0.items_view()),
                        Slot::Scalar(*x1 as int),
                        OperandView::U32(*x1),
                        Slot::Scalar(*x2 as int),
                        OperandView::U32(*x2),
                    );
                }
                TypedModVec::VecSlice(y0, *x1, *x2)
            },
            TypedModVecPrototype::VecUnpackToLinearMemory(x0, x1, x2) => {
                proof {
                    assert(operand_wf(self.operands()[0]));
                }
                let y0 = adapt_val_vec(env, x0);
                proof {
                    lemma_slots_hold_3(
                        Slot::Vec(vec_items(y0)),
                        OperandView::ValVec(x0.items_view()),
                        Slot::Scalar(*x1 as int),
                        OperandView::U32(*x1),
                        Slot::Scalar(*x2 as int),
                        OperandView::U32(*x2),
                    );
                }
                TypedModVec::VecUnpackToLinearMemory(y0, *x1, *x2)
            },
        }
    }
}

impl TypedFuzzInstructionPrototype {
    /// The instruction in the form the host accepts, with its operands placed
    /// in `env`: the category and operation are kept, integer operands pass
    /// through unchanged, byte strings, texts, symbols, addresses and vectors
    /// become host objects that hold what the operand held, and a generic
    /// value becomes the raw encoding of a host value that holds it.
    pub fn to_guest(&self, env: &Env) -> (r: TypedFuzzInstruction)
        requires
            operands_wf(self@.operands),
        ensures
            r.category() == self@.category,
            r.operation() == self@.operation,
            slots_hold(r.slots(), self@.operands),
    {
        match self {
            TypedFuzzInstructionPrototype::Address(v) => {
                TypedFuzzInstruction::Address(v.to_guest(env))
            },
            TypedFuzzInstructionPrototype::Buf(v) => TypedFuzzInstruction::Buf(v.to_guest(env)),
            TypedFuzzInstructionPrototype::Call(v) => TypedFuzzInstruction::Call(v.to_guest(env)),
            TypedFuzzInstructionPrototype::Context(v) => {
                TypedFuzzInstruction::Context(v.to_guest(env))
            },
            TypedFuzzInstructionPrototype::Crypto(v) => {
                TypedFuzzInstruction::Crypto(v.to_guest(env))
            },
            TypedFuzzInstructionPrototype::Int(v) => TypedFuzzInstruction::Int(v.to_guest(env)),
            TypedFuzzInstructionPrototype::Ledger(v) => {
                TypedFuzzInstruction::Ledger(v.to_guest(env))
            },
            TypedFuzzInstructionPrototype::Maps(v) => TypedFuzzInstruction::Maps(v.to_guest(env)),
            TypedFuzzInstructionPrototype::Prng(v) => TypedFuzzInstruction::Prng(v.to_guest(env)),
            TypedFuzzInstructionPrototype::Test => TypedFuzzInstruction::Test,
            TypedFuzzInstructionPrototype::Vec(v) => TypedFuzzInstruction::Vec(v.to_guest(env)),
        }
    }
}

} // verus!
