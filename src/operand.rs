//! Source-neutral operand values and how they are decoded from a cursor.
//!
//! None of these values is bound to a host environment yet: byte strings,
//! symbols and addresses are plain bytes, and generic host values are those
//! of `value`.
use vstd::prelude::*;
use crate::value::{
    lemma_symbol_valid, lemma_val_total, lemma_val_wf, spec_val, val_wf, valid_symbol, ValProto,
    ValView, ADDRESS_LEN, VAL_MAX_LEN,
};
use crate::codec::{
    spec_bytes, spec_count, spec_i128, spec_i64, spec_symbol, spec_take, spec_u128, spec_u32,
    spec_u64, ByteCursor, InsufficientInput, MAX_ITEMS, MAX_TEXT_LEN,
};

verus! {

/// A byte string operand.
#[derive(Clone, Debug)]
pub struct BytesProto {
    pub bytes: Vec<u8>,
}

/// A text operand, as the bytes of the text.
#[derive(Clone, Debug)]
pub struct StringProto {
    pub bytes: Vec<u8>,
}

/// A symbol operand: characters of the symbol alphabet.
#[derive(Clone, Debug)]
pub struct SymbolProto {
    pub chars: Vec<u8>,
}

/// A contract address operand: the contract's 32-byte identifier.
#[derive(Clone, Debug)]
pub struct AddressProto {
    pub contract_id: Vec<u8>,
}

/// A sequence of generic host values.
#[derive(Clone, Debug)]
pub struct ValVecProto {
    pub items: Vec<ValProto>,
}

/// An associative container from generic host values to generic host values,
/// as the entries in the order they were decoded.
#[derive(Clone, Debug)]
pub struct ValMapProto {
    pub entries: Vec<(ValProto, ValProto)>,
}

impl ValVecProto {
    pub open spec fn items_view(&self) -> Seq<ValView> {
        self.items@.map_values(|v: ValProto| v@)
    }
}

impl ValMapProto {
    pub open spec fn entries_view(&self) -> Seq<(ValView, ValView)> {
        self.entries@.map_values(|e: (ValProto, ValProto)| (e.0@, e.1@))
    }
}

/// The type of one operand slot of an operation.
#[derive(Clone, Copy, Debug, PartialEq, Eq, Structural)]
pub enum OperandKind {
    Bytes,
    String,
    Symbol,
    Address,
    Val,
    ValVec,
    ValMap,
    U32,
    U64,
    I64,
    U128,
    I128,
}

/// The value of one operand slot.
pub enum OperandView {
    Bytes(Seq<u8>),
    String(Seq<u8>),
    Symbol(Seq<u8>),
    Address(Seq<u8>),
    Val(ValView),
    ValVec(Seq<ValView>),
    ValMap(Seq<(ValView, ValView)>),
    U32(u32),
    U64(u64),
    I64(i64),
    U128(u128),
    I128(i128),
}

/// True of generic values that a host can represent.
pub open spec fn vals_wf(vs: Seq<ValView>) -> bool {
    forall|i: int| 0 <= i < vs.len() ==> val_wf(#[trigger] vs[i])
}

/// True of map entries whose keys and values a host can represent.
pub open spec fn entries_wf(es: Seq<(ValView, ValView)>) -> bool {
    forall|i: int| 0 <= i < es.len() ==> #[trigger] val_wf(es[i].0) && val_wf(es[i].1)
}

/// True of an operand value that a host can represent.
pub open spec fn operand_wf(o: OperandView) -> bool {
    match o {
        OperandView::Symbol(c) => valid_symbol(c),
        OperandView::Address(a) => a.len() == ADDRESS_LEN,
        OperandView::Val(v) => val_wf(v),
        OperandView::ValVec(vs) => vals_wf(vs),
        OperandView::ValMap(es) => entries_wf(es),
        _ => true,
    }
}

/// True of a list of operand values that a host can represent.
pub open spec fn operands_wf(ops: Seq<OperandView>) -> bool {
    forall|i: int| 0 <= i < ops.len() ==> operand_wf(#[trigger] ops[i])
}

proof fn lemma_vals_wf(s: Seq<u8>, n: nat)
    requires
        spec_vals(s, n) is Some,
    ensures
        spec_vals(s, n) matches Some((vs, _)) && vals_wf(vs),
    decreases n,
{
    if n > 0 {
        lemma_vals_wf(s, (n - 1) as nat);
        let r = spec_vals(s, (n - 1) as nat).unwrap().1;
        lemma_val_wf(r);
    }
}

proof fn lemma_entry_wf(s: Seq<u8>)
    requires
        spec_entry(s) is Some,
    ensures
        spec_entry(s) matches Some((e, _)) && val_wf(e.0) && val_wf(e.1),
{
    lemma_val_wf(s);
    lemma_val_wf(spec_val(s).unwrap().1);
}

proof fn lemma_entries_wf(s: Seq<u8>, n: nat)
    requires
        spec_entries(s, n) is Some,
    ensures
        spec_entries(s, n) matches Some((es, _)) && entries_wf(es),
    decreases n,
{
    if n > 0 {
        lemma_entries_wf(s, (n - 1) as nat);
        let (es, r) = spec_entries(s, (n - 1) as nat).unwrap();
        lemma_entry_wf(r);
        let (e, r2) = spec_entry(r).unwrap();
        assert(spec_entries(s, n) == Some((es.push(e), r2)));
        assert forall|i: int| 0 <= i < es.push(e).len() implies #[trigger] val_wf(es.push(e)[i].0)
            && val_wf(es.push(e)[i].1) by {
            if i < es.len() {
                assert(es.push(e)[i] == es[i]);
            }
        }
        assert(entries_wf(es.push(e)));
    }
}

/// Every operand that decoding produces can be represented by a host.
pub proof fn lemma_operand_wf(kind: OperandKind, s: Seq<u8>)
    requires
        spec_operand(kind, s) is Some,
    ensures
        spec_operand(kind, s) matches Some((o, _)) && operand_wf(o),
{
    reveal(spec_operand);
    match kind {
        OperandKind::Symbol => lemma_symbol_valid(s),
        OperandKind::Val => lemma_val_wf(s),
        OperandKind::ValVec => {
            let (n, r) = spec_count(s, MAX_ITEMS).unwrap();
            lemma_vals_wf(r, n as nat);
        },
        OperandKind::ValMap => {
            let (n, r) = spec_count(s, MAX_ITEMS).unwrap();
            lemma_entries_wf(r, n as nat);
        },
        _ => {},
    }
}

/// Every list of operands that decoding produces can be represented by a host.
pub proof fn lemma_operands_wf(kinds: Seq<OperandKind>, s: Seq<u8>)
    requires
        spec_operands(kinds, s) is Some,
    ensures
        spec_operands(kinds, s) matches Some((ops, _)) && operands_wf(ops),
    decreases kinds.len(),
{
    if kinds.len() > 0 {
        lemma_operands_wf(kinds.drop_last(), s);
        let (ops, r) = spec_operands(kinds.drop_last(), s).unwrap();
        lemma_operand_wf(kinds.last(), r);
        let (o, _) = spec_operand(kinds.last(), r).unwrap();
        assert forall|i: int| 0 <= i < ops.push(o).len() implies operand_wf(
            #[trigger] ops.push(o)[i],
        ) by {
            if i < ops.len() {
                assert(ops.push(o)[i] == ops[i]);
            }
        }
    }
}

/// Decoding of `n` generic host values one after the other.
pub open spec fn spec_vals(s: Seq<u8>, n: nat) -> Option<(Seq<ValView>, Seq<u8>)>
    decreases n,
{
    if n == 0 {
        Some((Seq::empty(), s))
    } else {
        match spec_vals(s, (n - 1) as nat) {
            Some((vs, r)) => match spec_val(r) {
                Some((v, r2)) => Some((vs.push(v), r2)),
                None => None,
            },
            None => None,
        }
    }
}

/// Decoding of one key-value pair: the key, then the value.
pub open spec fn spec_entry(s: Seq<u8>) -> Option<((ValView, ValView), Seq<u8>)> {
    match spec_val(s) {
        Some((k, r)) => match spec_val(r) {
            Some((v, r2)) => Some(((k, v), r2)),
            None => None,
        },
        None => None,
    }
}

/// Decoding of `n` key-value pairs one after the other.
pub open spec fn spec_entries(s: Seq<u8>, n: nat) -> Option<(Seq<(ValView, ValView)>, Seq<u8>)>
    decreases n,
{
    if n == 0 {
        Some((Seq::empty(), s))
    } else {
        match spec_entries(s, (n - 1) as nat) {
            Some((es, r)) => match spec_entry(r) {
                Some((e, r2)) => Some((es.push(e), r2)),
                None => None,
            },
            None => None,
        }
    }
}

/// A sequence of at most `MAX_ITEMS` generic host values: its length, then
/// its elements.
pub open spec fn spec_val_vec(s: Seq<u8>) -> Option<(Seq<ValView>, Seq<u8>)> {
    match spec_count(s, MAX_ITEMS) {
        Some((n, r)) => spec_vals(r, n as nat),
        None => None,
    }
}

/// A map of at most `MAX_ITEMS` entries: its length, then its entries.
pub open spec fn spec_val_map(s: Seq<u8>) -> Option<(Seq<(ValView, ValView)>, Seq<u8>)> {
    match spec_count(s, MAX_ITEMS) {
        Some((n, r)) => spec_entries(r, n as nat),
        None => None,
    }
}

/// Decoding of one operand of the given kind.
#[verifier::opaque]
pub open spec fn spec_operand(kind: OperandKind, s: Seq<u8>) -> Option<(OperandView, Seq<u8>)> {
    match kind {
        OperandKind::Bytes => match spec_bytes(s) {
            Some((v, r)) => Some((OperandView::Bytes(v), r)),
            None => None,
        },
        OperandKind::String => match spec_bytes(s) {
            Some((v, r)) => Some((OperandView::String(v), r)),
            None => None,
        },
        OperandKind::Symbol => match spec_symbol(s) {
            Some((v, r)) => Some((OperandView::Symbol(v), r)),
            None => None,
        },
        OperandKind::Address => match spec_take(s, ADDRESS_LEN as int) {
            Some((v, r)) => Some((OperandView::Address(v), r)),
            None => None,
        },
        OperandKind::Val => match spec_val(s) {
            Some((v, r)) => Some((OperandView::Val(v), r)),
            None => None,
        },
        OperandKind::ValVec => match spec_val_vec(s) {
            Some((v, r)) => Some((OperandView::ValVec(v), r)),
            None => None,
        },
        OperandKind::ValMap => match spec_val_map(s) {
            Some((v, r)) => Some((OperandView::ValMap(v), r)),
            None => None,
        },
        OperandKind::U32 => match spec_u32(s) {
            Some((v, r)) => Some((OperandView::U32(v), r)),
            None => None,
        },
        OperandKind::U64 => match spec_u64(s) {
            Some((v, r)) => Some((OperandView::U64(v), r)),
            None => None,
        },
        OperandKind::I64 => match spec_i64(s) {
            Some((v, r)) => Some((OperandView::I64(v), r)),
            None => None,
        },
        OperandKind::U128 => match spec_u128(s) {
            Some((v, r)) => Some((OperandView::U128(v), r)),
            None => None,
        },
        OperandKind::I128 => match spec_i128(s) {
            Some((v, r)) => Some((OperandView::I128(v), r)),
            None => None,
        },
    }
}

/// Decoding of operands of the given kinds, in order.
pub open spec fn spec_operands(kinds: Seq<OperandKind>, s: Seq<u8>) -> Option<
    (Seq<OperandView>, Seq<u8>),
>
    decreases kinds.len(),
{
    if kinds.len() == 0 {
        Some((Seq::empty(), s))
    } else {
        match spec_operands(kinds.drop_last(), s) {
            Some((ops, r)) => match spec_operand(kinds.last(), r) {
                Some((v, r2)) => Some((ops.push(v), r2)),
                None => None,
            },
            None => None,
        }
    }
}

proof fn lemma_vals_fail_grows(s: Seq<u8>, i: nat, n: nat)
    requires
        i <= n,
        spec_vals(s, i) is None,
    ensures
        spec_vals(s, n) is None,
    decreases n - i,
{
    if i < n {
        lemma_vals_fail_grows(s, i, (n - 1) as nat);
    }
}

proof fn lemma_entries_fail_grows(s: Seq<u8>, i: nat, n: nat)
    requires
        i <= n,
        spec_entries(s, i) is None,
    ensures
        spec_entries(s, n) is None,
    decreases n - i,
{
    if i < n {
        lemma_entries_fail_grows(s, i, (n - 1) as nat);
    }
}

impl ValVecProto {
    /// Decodes a sequence of at most `MAX_ITEMS` generic host values.
    pub fn decode(c: &mut ByteCursor) -> (r: Result<ValVecProto, InsufficientInput>)
        requires
            old(c).wf(),
        ensures
            final(c).wf(),
            r is Ok <==> spec_val_vec(old(c)@) is Some,
            r matches Ok(v) ==> spec_val_vec(old(c)@) == Some((v.items_view(), final(c)@)),
    {
        let ghost start = c@;
        let n = c.take_count(MAX_ITEMS)?;
        let ghost s0 = c@;
        assert(spec_val_vec(start) == spec_vals(s0, n as nat));
        let mut items: Vec<ValProto> = Vec::new();
        let mut i: u8 = 0;
        while i < n
            invariant
                c.wf(),
                i <= n,
                spec_vals(s0, i as nat) == Some((items@.map_values(|v: ValProto| v@), c@)),
                spec_val_vec(start) == spec_vals(s0, n as nat),
                start == old(c)@,
            decreases n - i,
        {
            let v = match ValProto::decode(c) {
                Ok(v) => v,
                Err(e) => {
                    proof {
                        assert(spec_vals(s0, (i + 1) as nat) is None);
                        lemma_vals_fail_grows(s0, (i + 1) as nat, n as nat);
                        assert(spec_val_vec(start) is None);
                    }
                    return Err(e);
                },
            };
            let ghost prev = items@;
            let ghost vv = v@;
            items.push(v);
            proof {
                assert(items@.map_values(|v: ValProto| v@) =~= prev.map_values(
                    |v: ValProto| v@,
                ).push(vv));
            }
            i = i + 1;
        }
        Ok(ValVecProto { items })
    }
}

fn decode_entry(c: &mut ByteCursor) -> (r: Result<(ValProto, ValProto), InsufficientInput>)
    requires
        old(c).wf(),
    ensures
        final(c).wf(),
        r is Ok <==> spec_entry(old(c)@) is Some,
        r matches Ok(e) ==> spec_entry(old(c)@) == Some(((e.0@, e.1@), final(c)@)),
{
    let k = ValProto::decode(c)?;
    let v = ValProto::decode(c)?;
    Ok((k, v))
}

impl ValMapProto {
    /// Decodes a map of at most `MAX_ITEMS` entries.
    pub fn decode(c: &mut ByteCursor) -> (r: Result<ValMapProto, InsufficientInput>)
        requires
            old(c).wf(),
        ensures
            final(c).wf(),
            r is Ok <==> spec_val_map(old(c)@) is Some,
            r matches Ok(v) ==> spec_val_map(old(c)@) == Some((v.entries_view(), final(c)@)),
    {
        let ghost start = c@;
        let n = c.take_count(MAX_ITEMS)?;
        let ghost s0 = c@;
        assert(spec_val_map(start) == spec_entries(s0, n as nat));
        let mut entries: Vec<(ValProto, ValProto)> = Vec::new();
        let mut i: u8 = 0;
        while i < n
            invariant
                c.wf(),
                i <= n,
                spec_val_map(start) == spec_entries(s0, n as nat),
                start == old(c)@,
                spec_entries(s0, i as nat) == Some(
                    (entries@.map_values(|e: (ValProto, ValProto)| (e.0@, e.1@)), c@),
                ),
            decreases n - i,
        {
            let e = match decode_entry(c) {
                Ok(e) => e,
                Err(err) => {
                    proof {
                        assert(spec_entries(s0, (i + 1) as nat) is None);
                        lemma_entries_fail_grows(s0, (i + 1) as nat, n as nat);
                        assert(spec_val_map(start) is None);
                    }
                    return Err(err);
                },
            };
            let ghost prev = entries@;
            let ghost ev = (e.0@, e.1@);
            entries.push(e);
            proof {
                let f = |e: (ValProto, ValProto)| (e.0@, e.1@);
                assert(entries@.map_values(f) =~= prev.map_values(f).push(ev));
            }
            i = i + 1;
        }
        Ok(ValMapProto { entries })
    }
}

impl BytesProto {
    pub fn decode(c: &mut ByteCursor) -> (r: Result<BytesProto, InsufficientInput>)
        requires
            old(c).wf(),
        ensures
            final(c).wf(),
            r is Ok <==> spec_operand(OperandKind::Bytes, old(c)@) is Some,
            r matches Ok(v) ==> spec_operand(OperandKind::Bytes, old(c)@) == Some(
                (OperandView::Bytes(v.bytes@), final(c)@),
            ),
    {
        proof {
            reveal(spec_operand);
        }
        Ok(BytesProto { bytes: c.take_bytes()? })
    }
}

impl StringProto {
    pub fn decode(c: &mut ByteCursor) -> (r: Result<StringProto, InsufficientInput>)
        requires
            old(c).wf(),
        ensures
            final(c).wf(),
            r is Ok <==> spec_operand(OperandKind::String, old(c)@) is Some,
            r matches Ok(v) ==> spec_operand(OperandKind::String, old(c)@) == Some(
                (OperandView::String(v.bytes@), final(c)@),
            ),
    {
        proof {
            reveal(spec_operand);
        }
        Ok(StringProto { bytes: c.take_bytes()? })
    }
}

impl SymbolProto {
    pub fn decode(c: &mut ByteCursor) -> (r: Result<SymbolProto, InsufficientInput>)
        requires
            old(c).wf(),
        ensures
            final(c).wf(),
            r is Ok <==> spec_operand(OperandKind::Symbol, old(c)@) is Some,
            r matches Ok(v) ==> spec_operand(OperandKind::Symbol, old(c)@) == Some(
                (OperandView::Symbol(v.chars@), final(c)@),
            ),
    {
        proof {
            reveal(spec_operand);
        }
        Ok(SymbolProto { chars: c.take_symbol()? })
    }
}

impl AddressProto {
    pub fn decode(c: &mut ByteCursor) -> (r: Result<AddressProto, InsufficientInput>)
        requires
            old(c).wf(),
        ensures
            final(c).wf(),
            r is Ok <==> spec_operand(OperandKind::Address, old(c)@) is Some,
            r matches Ok(v) ==> spec_operand(OperandKind::Address, old(c)@) == Some(
                (OperandView::Address(v.contract_id@), final(c)@),
            ),
    {
        proof {
            reveal(spec_operand);
        }
        Ok(AddressProto { contract_id: c.take_exact(ADDRESS_LEN)? })
    }
}

/// Decodes a generic host value operand.
pub fn decode_val_operand(c: &mut ByteCursor) -> (r: Result<ValProto, InsufficientInput>)
    requires
        old(c).wf(),
    ensures
        final(c).wf(),
        r is Ok <==> spec_operand(OperandKind::Val, old(c)@) is Some,
        r matches Ok(v) ==> spec_operand(OperandKind::Val, old(c)@) == Some(
            (OperandView::Val(v@), final(c)@),
        ),
{
    proof {
        reveal(spec_operand);
    }
    ValProto::decode(c)
}

/// Decodes a sequence operand.
pub fn decode_val_vec_operand(c: &mut ByteCursor) -> (r: Result<ValVecProto, InsufficientInput>)
    requires
        old(c).wf(),
    ensures
        final(c).wf(),
        r is Ok <==> spec_operand(OperandKind::ValVec, old(c)@) is Some,
        r matches Ok(v) ==> spec_operand(OperandKind::ValVec, old(c)@) == Some(
            (OperandView::ValVec(v.items_view()), final(c)@),
        ),
{
    proof {
        reveal(spec_operand);
    }
    ValVecProto::decode(c)
}

/// Decodes a map operand.
pub fn decode_val_map_operand(c: &mut ByteCursor) -> (r: Result<ValMapProto, InsufficientInput>)
    requires
        old(c).wf(),
    ensures
        final(c).wf(),
        r is Ok <==> spec_operand(OperandKind::ValMap, old(c)@) is Some,
        r matches Ok(v) ==> spec_operand(OperandKind::ValMap, old(c)@) == Some(
            (OperandView::ValMap(v.entries_view()), final(c)@),
        ),
{
    proof {
        reveal(spec_operand);
    }
    ValMapProto::decode(c)
}

/// Decodes a `u32` operand.
pub fn decode_u32_operand(c: &mut ByteCursor) -> (r: Result<u32, InsufficientInput>)
    requires
        old(c).wf(),
    ensures
        final(c).wf(),
        r is Ok <==> spec_operand(OperandKind::U32, old(c)@) is Some,
        r matches Ok(v) ==> spec_operand(OperandKind::U32, old(c)@) == Some(
            (OperandView::U32(v), final(c)@),
        ),
{
    proof {
        reveal(spec_operand);
    }
    c.take_u32()
}

/// Decodes a `u64` operand.
pub fn decode_u64_operand(c: &mut ByteCursor) -> (r: Result<u64, InsufficientInput>)
    requires
        old(c).wf(),
    ensures
        final(c).wf(),
        r is Ok <==> spec_operand(OperandKind::U64, old(c)@) is Some,
        r matches Ok(v) ==> spec_operand(OperandKind::U64, old(c)@) == Some(
            (OperandView::U64(v), final(c)@),
        ),
{
    proof {
        reveal(spec_operand);
    }
    c.take_u64()
}

/// Decodes a `i64` operand.
pub fn decode_i64_operand(c: &mut ByteCursor) -> (r: Result<i64, InsufficientInput>)
    requires
        old(c).wf(),
    ensures
        final(c).wf(),
        r is Ok <==> spec_operand(OperandKind::I64, old(c)@) is Some,
        r matches Ok(v) ==> spec_operand(OperandKind::I64, old(c)@) == Some(
            (OperandView::I64(v), final(c)@),
        ),
{
    proof {
        reveal(spec_operand);
    }
    c.take_i64()
}

/// Decodes a `u128` operand.
pub fn decode_u128_operand(c: &mut ByteCursor) -> (r: Result<u128, InsufficientInput>)
    requires
        old(c).wf(),
    ensures
        final(c).wf(),
        r is Ok <==> spec_operand(OperandKind::U128, old(c)@) is Some,
        r matches Ok(v) ==> spec_operand(OperandKind::U128, old(c)@) == Some(
            (OperandView::U128(v), final(c)@),
        ),
{
    proof {
        reveal(spec_operand);
    }
    c.take_u128()
}

/// Decodes a `i128` operand.
pub fn decode_i128_operand(c: &mut ByteCursor) -> (r: Result<i128, InsufficientInput>)
    requires
        old(c).wf(),
    ensures
        final(c).wf(),
        r is Ok <==> spec_operand(OperandKind::I128, old(c)@) is Some,
        r matches Ok(v) ==> spec_operand(OperandKind::I128, old(c)@) == Some(
            (OperandView::I128(v), final(c)@),
        ),
{
    proof {
        reveal(spec_operand);
    }
    c.take_i128()
}

/// Most bytes that an operand of the given kind takes.
pub open spec fn operand_max_len(kind: OperandKind) -> int {
    match kind {
        OperandKind::Bytes => 1 + MAX_TEXT_LEN,
        OperandKind::String => 1 + MAX_TEXT_LEN,
        OperandKind::Symbol => 1 + MAX_TEXT_LEN,
        OperandKind::Address => ADDRESS_LEN as int,
        OperandKind::Val => VAL_MAX_LEN as int,
        OperandKind::ValVec => 1 + MAX_ITEMS * VAL_MAX_LEN,
        OperandKind::ValMap => 1 + MAX_ITEMS * 2 * VAL_MAX_LEN,
        OperandKind::U32 => 4,
        OperandKind::U64 => 8,
        OperandKind::I64 => 8,
        OperandKind::U128 => 16,
        OperandKind::I128 => 16,
    }
}

/// Most bytes that operands of the given kinds take together.
pub open spec fn operands_max_len(kinds: Seq<OperandKind>) -> int
    decreases kinds.len(),
{
    if kinds.len() == 0 {
        0
    } else {
        operands_max_len(kinds.drop_last()) + operand_max_len(kinds.last())
    }
}

proof fn lemma_bytes_total(s: Seq<u8>)
    requires
        s.len() >= 1 + MAX_TEXT_LEN,
    ensures
        spec_bytes(s) matches Some((_, r)) && r.len() >= s.len() - (1 + MAX_TEXT_LEN),
{
}

proof fn lemma_vals_total(s: Seq<u8>, n: nat)
    requires
        s.len() >= n * VAL_MAX_LEN,
    ensures
        spec_vals(s, n) matches Some((_, r)) && r.len() >= s.len() - n * VAL_MAX_LEN,
    decreases n,
{
    if n > 0 {
        lemma_vals_total(s, (n - 1) as nat);
        let r = spec_vals(s, (n - 1) as nat).unwrap().1;
        lemma_val_total(r);
    }
}

proof fn lemma_entries_total(s: Seq<u8>, n: nat)
    requires
        s.len() >= n * 2 * VAL_MAX_LEN,
    ensures
        spec_entries(s, n) matches Some((_, r)) && r.len() >= s.len() - n * 2 * VAL_MAX_LEN,
    decreases n,
{
    if n > 0 {
        lemma_entries_total(s, (n - 1) as nat);
        let r = spec_entries(s, (n - 1) as nat).unwrap().1;
        lemma_val_total(r);
        lemma_val_total(spec_val(r).unwrap().1);
    }
}

/// An operand decodes from any bytes at least as long as its largest form.
pub proof fn lemma_operand_total(kind: OperandKind, s: Seq<u8>)
    requires
        s.len() >= operand_max_len(kind),
    ensures
        spec_operand(kind, s) matches Some((_, r)) && r.len() >= s.len() - operand_max_len(kind),
{
    reveal(spec_operand);
    match kind {
        OperandKind::Bytes => lemma_bytes_total(s),
        OperandKind::String => lemma_bytes_total(s),
        OperandKind::Symbol => lemma_bytes_total(s),
        OperandKind::Val => lemma_val_total(s),
        OperandKind::ValVec => {
            let (n, r) = spec_count(s, MAX_ITEMS).unwrap();
            assert(n * VAL_MAX_LEN <= MAX_ITEMS * VAL_MAX_LEN) by (nonlinear_arith)
                requires
                    n <= MAX_ITEMS,
            ;
            lemma_vals_total(r, n as nat);
        },
        OperandKind::ValMap => {
            let (n, r) = spec_count(s, MAX_ITEMS).unwrap();
            assert(n * 2 * VAL_MAX_LEN <= MAX_ITEMS * 2 * VAL_MAX_LEN) by (nonlinear_arith)
                requires
                    n <= MAX_ITEMS,
            ;
            lemma_entries_total(r, n as nat);
        },
        _ => {},
    }
}

/// Operands decode from any bytes at least as long as their largest forms
/// together.
pub proof fn lemma_operands_total(kinds: Seq<OperandKind>, s: Seq<u8>)
    requires
        s.len() >= operands_max_len(kinds),
    ensures
        spec_operands(kinds, s) matches Some((_, r)) && r.len() >= s.len() - operands_max_len(
            kinds,
        ),
    decreases kinds.len(),
{
    if kinds.len() > 0 {
        assert(operand_max_len(kinds.last()) >= 0);
        lemma_operands_total(kinds.drop_last(), s);
        let r = spec_operands(kinds.drop_last(), s).unwrap().1;
        lemma_operand_total(kinds.last(), r);
    }
}

} // verus!
