//! Generic host values before they are placed in a host environment, and how
//! they are decoded.
//!
//! A generic value is one of nineteen kinds: seventeen plain kinds (unit,
//! truth values, errors, integers up to 256 bits, byte strings, texts,
//! symbols, addresses, time points and durations), or a vector or a map (a
//! `Table`) whose
//! elements are plain values. A host option is either unit or its content, so
//! it needs no kind of its own.
use vstd::prelude::*;
use crate::codec::{
    is_symbol_char, spec_bool, spec_bytes, spec_choice, spec_count, spec_i128, spec_i32, spec_i64,
    spec_symbol, spec_take, spec_u128, spec_u32, spec_u64, symbol_char, ByteCursor,
    InsufficientInput, MAX_ITEMS, MAX_TEXT_LEN, SYMBOL_ALPHABET_LEN,
};

verus! {

/// Number of kinds of plain values.
pub const LEAF_KINDS: u32 = 17;

/// Number of kinds of generic values: the plain kinds, vectors and maps.
pub const VAL_KINDS: u32 = 19;

/// Kind of a vector of plain values.
pub const VEC_KIND: u32 = 17;

/// Number of host error types.
pub const ERROR_TYPES: u32 = 10;

/// Number of host error codes of the error types other than contract errors.
pub const ERROR_CODES: u32 = 10;

/// Length of a contract address in bytes.
pub const ADDRESS_LEN: usize = 32;

/// Most bytes that a plain value takes: its kind, then at most a byte string
/// with its length.
pub const LEAF_MAX_LEN: u32 = 37;

/// Most bytes that a generic value takes: its kind, then at most a map of
/// `MAX_ITEMS` entries of plain values.
pub const VAL_MAX_LEN: u32 = 301;

/// A plain host value.
#[derive(Clone, Debug)]
pub enum LeafVal {
    Void,
    Bool(bool),
    /// An error: its type and its code.
    Error(u32, u32),
    U32(u32),
    I32(i32),
    U64(u64),
    I64(i64),
    U128(u128),
    I128(i128),
    /// A 256-bit unsigned integer, as four 64-bit parts, most significant first.
    U256(u64, u64, u64, u64),
    /// A 256-bit signed integer, as four 64-bit parts, most significant first.
    I256(i64, u64, u64, u64),
    Bytes(Vec<u8>),
    String(Vec<u8>),
    Symbol(Vec<u8>),
    Address(Vec<u8>),
    Timepoint(u64),
    Duration(u64),
}

/// A generic host value.
#[derive(Clone, Debug)]
pub enum ValProto {
    Leaf(LeafVal),
    Vec(Vec<LeafVal>),
    Table(Vec<(LeafVal, LeafVal)>),
}

/// The mathematical value of a `LeafVal`.
pub enum LeafView {
    Void,
    Bool(bool),
    Error(u32, u32),
    U32(u32),
    I32(i32),
    U64(u64),
    I64(i64),
    U128(u128),
    I128(i128),
    U256(u64, u64, u64, u64),
    I256(i64, u64, u64, u64),
    Bytes(Seq<u8>),
    String(Seq<u8>),
    Symbol(Seq<u8>),
    Address(Seq<u8>),
    Timepoint(u64),
    Duration(u64),
}

/// The mathematical value of a `ValProto`.
pub enum ValView {
    Leaf(LeafView),
    Vec(Seq<LeafView>),
    Table(Seq<(LeafView, LeafView)>),
}

impl View for LeafVal {
    type V = LeafView;

    open spec fn view(&self) -> LeafView {
        match self {
            LeafVal::Void => LeafView::Void,
            LeafVal::Bool(b) => LeafView::Bool(*b),
            LeafVal::Error(t, c) => LeafView::Error(*t, *c),
            LeafVal::U32(x) => LeafView::U32(*x),
            LeafVal::I32(x) => LeafView::I32(*x),
            LeafVal::U64(x) => LeafView::U64(*x),
            LeafVal::I64(x) => LeafView::I64(*x),
            LeafVal::U128(x) => LeafView::U128(*x),
            LeafVal::I128(x) => LeafView::I128(*x),
            LeafVal::U256(a, b, c, d) => LeafView::U256(*a, *b, *c, *d),
            LeafVal::I256(a, b, c, d) => LeafView::I256(*a, *b, *c, *d),
            LeafVal::Bytes(b) => LeafView::Bytes(b@),
            LeafVal::String(b) => LeafView::String(b@),
            LeafVal::Symbol(b) => LeafView::Symbol(b@),
            LeafVal::Address(b) => LeafView::Address(b@),
            LeafVal::Timepoint(x) => LeafView::Timepoint(*x),
            LeafVal::Duration(x) => LeafView::Duration(*x),
        }
    }
}

pub open spec fn leaves_view(ls: Seq<LeafVal>) -> Seq<LeafView> {
    ls.map_values(|l: LeafVal| l@)
}

pub open spec fn leaf_entries_view(es: Seq<(LeafVal, LeafVal)>) -> Seq<(LeafView, LeafView)> {
    es.map_values(|e: (LeafVal, LeafVal)| (e.0@, e.1@))
}

impl View for ValProto {
    type V = ValView;

    open spec fn view(&self) -> ValView {
        match self {
            ValProto::Leaf(l) => ValView::Leaf(l@),
            ValProto::Vec(ls) => ValView::Vec(leaves_view(ls@)),
            ValProto::Table(es) => ValView::Table(leaf_entries_view(es@)),
        }
    }
}

/// True of the characters of a symbol that a host accepts: at most
/// `MAX_TEXT_LEN` characters of the symbol alphabet.
pub open spec fn valid_symbol(chars: Seq<u8>) -> bool {
    chars.len() <= MAX_TEXT_LEN && forall|i: int|
        0 <= i < chars.len() ==> is_symbol_char(#[trigger] chars[i])
}

/// True of a plain value that a host can represent.
pub open spec fn leaf_wf(l: LeafView) -> bool {
    match l {
        LeafView::Error(t, c) => t < ERROR_TYPES && (t == 0 || c < ERROR_CODES),
        LeafView::Symbol(c) => valid_symbol(c),
        LeafView::Address(a) => a.len() == ADDRESS_LEN,
        _ => true,
    }
}

pub open spec fn leaves_wf(ls: Seq<LeafView>) -> bool {
    forall|i: int| 0 <= i < ls.len() ==> leaf_wf(#[trigger] ls[i])
}

pub open spec fn leaf_entries_wf(es: Seq<(LeafView, LeafView)>) -> bool {
    forall|i: int| 0 <= i < es.len() ==> #[trigger] leaf_wf(es[i].0) && leaf_wf(es[i].1)
}

/// True of a generic value that a host can represent.
pub open spec fn val_wf(v: ValView) -> bool {
    match v {
        ValView::Leaf(l) => leaf_wf(l),
        ValView::Vec(ls) => leaves_wf(ls),
        ValView::Table(es) => leaf_entries_wf(es),
    }
}

/// An error: its type, a choice among `ERROR_TYPES`, then a four-byte code,
/// taken modulo `ERROR_CODES` unless the type is that of contract errors.
pub open spec fn spec_error(s: Seq<u8>) -> Option<((u32, u32), Seq<u8>)> {
    match spec_choice(s, ERROR_TYPES) {
        Some((t, r)) => match spec_u32(r) {
            Some((c, r2)) => Some(((t, if t == 0 { c } else { (c % ERROR_CODES) as u32 }), r2)),
            None => None,
        },
        None => None,
    }
}

/// Four 64-bit parts, most significant first.
pub open spec fn spec_u256(s: Seq<u8>) -> Option<((u64, u64, u64, u64), Seq<u8>)> {
    match spec_u64(s) {
        Some((a, r1)) => match spec_u64(r1) {
            Some((b, r2)) => match spec_u64(r2) {
                Some((c, r3)) => match spec_u64(r3) {
                    Some((d, r4)) => Some(((a, b, c, d), r4)),
                    None => None,
                },
                None => None,
            },
            None => None,
        },
        None => None,
    }
}

/// A signed most significant part, then three 64-bit parts.
pub open spec fn spec_i256(s: Seq<u8>) -> Option<((i64, u64, u64, u64), Seq<u8>)> {
    match spec_u256(s) {
        Some(((a, b, c, d), r)) => Some(((a as i64, b, c, d), r)),
        None => None,
    }
}

/// The payload of a plain value of kind `k`.
#[verifier::opaque]
pub open spec fn spec_leaf_kind(k: u32, s: Seq<u8>) -> Option<(LeafView, Seq<u8>)> {
    if k == 0 {
        Some((LeafView::Void, s))
    } else if k == 1 {
        match spec_bool(s) { Some((v, r)) => Some((LeafView::Bool(v), r)), None => None }
    } else if k == 2 {
        match spec_error(s) { Some(((t, c), r)) => Some((LeafView::Error(t, c), r)), None => None }
    } else if k == 3 {
        match spec_u32(s) { Some((v, r)) => Some((LeafView::U32(v), r)), None => None }
    } else if k == 4 {
        match spec_i32(s) { Some((v, r)) => Some((LeafView::I32(v), r)), None => None }
    } else if k == 5 {
        match spec_u64(s) { Some((v, r)) => Some((LeafView::U64(v), r)), None => None }
    } else if k == 6 {
        match spec_i64(s) { Some((v, r)) => Some((LeafView::I64(v), r)), None => None }
    } else if k == 7 {
        match spec_u128(s) { Some((v, r)) => Some((LeafView::U128(v), r)), None => None }
    } else if k == 8 {
        match spec_i128(s) { Some((v, r)) => Some((LeafView::I128(v), r)), None => None }
    } else if k == 9 {
        match spec_u256(s) {
            Some(((a, b, c, d), r)) => Some((LeafView::U256(a, b, c, d), r)),
            None => None,
        }
    } else if k == 10 {
        match spec_i256(s) {
            Some(((a, b, c, d), r)) => Some((LeafView::I256(a, b, c, d), r)),
            None => None,
        }
    } else if k == 11 {
        match spec_bytes(s) { Some((v, r)) => Some((LeafView::Bytes(v), r)), None => None }
    } else if k == 12 {
        match spec_bytes(s) { Some((v, r)) => Some((LeafView::String(v), r)), None => None }
    } else if k == 13 {
        match spec_symbol(s) { Some((v, r)) => Some((LeafView::Symbol(v), r)), None => None }
    } else if k == 14 {
        match spec_take(s, ADDRESS_LEN as int) {
            Some((v, r)) => Some((LeafView::Address(v), r)),
            None => None,
        }
    } else if k == 15 {
        match spec_u64(s) { Some((v, r)) => Some((LeafView::Timepoint(v), r)), None => None }
    } else {
        match spec_u64(s) { Some((v, r)) => Some((LeafView::Duration(v), r)), None => None }
    }
}

/// A plain value: a choice among `LEAF_KINDS` kinds, then its payload.
pub open spec fn spec_leaf(s: Seq<u8>) -> Option<(LeafView, Seq<u8>)> {
    match spec_choice(s, LEAF_KINDS) {
        Some((k, r)) => spec_leaf_kind(k, r),
        None => None,
    }
}

/// `n` plain values one after the other.
pub open spec fn spec_leaves(s: Seq<u8>, n: nat) -> Option<(Seq<LeafView>, Seq<u8>)>
    decreases n,
{
    if n == 0 {
        Some((Seq::empty(), s))
    } else {
        match spec_leaves(s, (n - 1) as nat) {
            Some((ls, r)) => match spec_leaf(r) {
                Some((l, r2)) => Some((ls.push(l), r2)),
                None => None,
            },
            None => None,
        }
    }
}

/// A pair of plain values: the key, then the value.
pub open spec fn spec_leaf_entry(s: Seq<u8>) -> Option<((LeafView, LeafView), Seq<u8>)> {
    match spec_leaf(s) {
        Some((k, r)) => match spec_leaf(r) {
            Some((v, r2)) => Some(((k, v), r2)),
            None => None,
        },
        None => None,
    }
}

/// `n` pairs of plain values one after the other.
pub open spec fn spec_leaf_entries(s: Seq<u8>, n: nat) -> Option<
    (Seq<(LeafView, LeafView)>, Seq<u8>),
>
    decreases n,
{
    if n == 0 {
        Some((Seq::empty(), s))
    } else {
        match spec_leaf_entries(s, (n - 1) as nat) {
            Some((es, r)) => match spec_leaf_entry(r) {
                Some((e, r2)) => Some((es.push(e), r2)),
                None => None,
            },
            None => None,
        }
    }
}

/// A generic value: a choice among `VAL_KINDS` kinds, then a plain value's
/// payload, or a count of at most `MAX_ITEMS` followed by that many plain
/// values (a vector) or pairs of plain values (a map).
#[verifier::opaque]
pub open spec fn spec_val(s: Seq<u8>) -> Option<(ValView, Seq<u8>)> {
    match spec_choice(s, VAL_KINDS) {
        Some((k, r)) => if k < LEAF_KINDS {
            match spec_leaf_kind(k, r) {
                Some((l, r2)) => Some((ValView::Leaf(l), r2)),
                None => None,
            }
        } else if k == VEC_KIND {
            match spec_count(r, MAX_ITEMS) {
                Some((n, r2)) => match spec_leaves(r2, n as nat) {
                    Some((ls, r3)) => Some((ValView::Vec(ls), r3)),
                    None => None,
                },
                None => None,
            }
        } else {
            match spec_count(r, MAX_ITEMS) {
                Some((n, r2)) => match spec_leaf_entries(r2, n as nat) {
                    Some((es, r3)) => Some((ValView::Table(es), r3)),
                    None => None,
                },
                None => None,
            }
        },
        None => None,
    }
}

proof fn lemma_leaves_fail_grows(s: Seq<u8>, i: nat, n: nat)
    requires
        i <= n,
        spec_leaves(s, i) is None,
    ensures
        spec_leaves(s, n) is None,
    decreases n - i,
{
    if i < n {
        lemma_leaves_fail_grows(s, i, (n - 1) as nat);
    }
}

proof fn lemma_leaf_entries_fail_grows(s: Seq<u8>, i: nat, n: nat)
    requires
        i <= n,
        spec_leaf_entries(s, i) is None,
    ensures
        spec_leaf_entries(s, n) is None,
    decreases n - i,
{
    if i < n {
        lemma_leaf_entries_fail_grows(s, i, (n - 1) as nat);
    }
}

proof fn lemma_symbol_char_valid(i: u8)
    requires
        i < SYMBOL_ALPHABET_LEN,
    ensures
        is_symbol_char(symbol_char(i)),
{
}

/// Every decoded symbol is one that a host accepts.
pub proof fn lemma_symbol_valid(s: Seq<u8>)
    requires
        spec_symbol(s) is Some,
    ensures
        spec_symbol(s) matches Some((c, _)) && valid_symbol(c),
{
    if let Some((c, _)) = spec_symbol(s) {
        assert forall|i: int| 0 <= i < c.len() implies is_symbol_char(#[trigger] c[i]) by {
            let raw = spec_bytes(s).unwrap().0;
            lemma_symbol_char_valid(raw[i] % SYMBOL_ALPHABET_LEN);
        }
    }
}

proof fn lemma_leaf_kind_wf(k: u32, s: Seq<u8>)
    requires
        spec_leaf_kind(k, s) is Some,
    ensures
        spec_leaf_kind(k, s) matches Some((l, _)) && leaf_wf(l),
{
    reveal(spec_leaf_kind);
    if k == 13 {
        lemma_symbol_valid(s);
    }
}

proof fn lemma_leaves_wf(s: Seq<u8>, n: nat)
    requires
        spec_leaves(s, n) is Some,
    ensures
        spec_leaves(s, n) matches Some((ls, _)) && leaves_wf(ls),
    decreases n,
{
    if n > 0 {
        lemma_leaves_wf(s, (n - 1) as nat);
        let (ls, r) = spec_leaves(s, (n - 1) as nat).unwrap();
        let (k, r2) = spec_choice(r, LEAF_KINDS).unwrap();
        lemma_leaf_kind_wf(k, r2);
        let (l, _) = spec_leaf(r).unwrap();
        assert forall|i: int| 0 <= i < ls.push(l).len() implies leaf_wf(
            #[trigger] ls.push(l)[i],
        ) by {
            if i < ls.len() {
                assert(ls.push(l)[i] == ls[i]);
            }
        }
    }
}

proof fn lemma_leaf_entry_wf(s: Seq<u8>)
    requires
        spec_leaf_entry(s) is Some,
    ensures
        spec_leaf_entry(s) matches Some((e, _)) && leaf_wf(e.0) && leaf_wf(e.1),
{
    let (k, r) = spec_choice(s, LEAF_KINDS).unwrap();
    lemma_leaf_kind_wf(k, r);
    let r2 = spec_leaf(s).unwrap().1;
    let (k2, r3) = spec_choice(r2, LEAF_KINDS).unwrap();
    lemma_leaf_kind_wf(k2, r3);
}

proof fn lemma_leaf_entries_wf(s: Seq<u8>, n: nat)
    requires
        spec_leaf_entries(s, n) is Some,
    ensures
        spec_leaf_entries(s, n) matches Some((es, _)) && leaf_entries_wf(es),
    decreases n,
{
    if n > 0 {
        lemma_leaf_entries_wf(s, (n - 1) as nat);
        let (es, r) = spec_leaf_entries(s, (n - 1) as nat).unwrap();
        lemma_leaf_entry_wf(r);
        let (e, r2) = spec_leaf_entry(r).unwrap();
        assert(spec_leaf_entries(s, n) == Some((es.push(e), r2)));
        assert forall|i: int| 0 <= i < es.push(e).len() implies #[trigger] leaf_wf(
            es.push(e)[i].0,
        ) && leaf_wf(es.push(e)[i].1) by {
            if i < es.len() {
                assert(es.push(e)[i] == es[i]);
            }
        }
        assert(leaf_entries_wf(es.push(e)));
    }
}

/// Every decoded generic value is one that a host can represent.
pub proof fn lemma_val_wf(s: Seq<u8>)
    requires
        spec_val(s) is Some,
    ensures
        spec_val(s) matches Some((v, _)) && val_wf(v),
{
    reveal(spec_val);
    let (k, r) = spec_choice(s, VAL_KINDS).unwrap();
    if k < LEAF_KINDS {
        lemma_leaf_kind_wf(k, r);
    } else {
        let (n, r2) = spec_count(r, MAX_ITEMS).unwrap();
        if k == VEC_KIND {
            lemma_leaves_wf(r2, n as nat);
        } else {
            lemma_leaf_entries_wf(r2, n as nat);
        }
    }
}

proof fn lemma_leaf_kind_total(k: u32, s: Seq<u8>)
    requires
        s.len() >= LEAF_MAX_LEN - 4,
    ensures
        spec_leaf_kind(k, s) matches Some((_, r)) && r.len() >= s.len() - (LEAF_MAX_LEN - 4),
{
    reveal(spec_leaf_kind);
    let r = s.subrange(1, s.len() as int);
    assert(r.len() >= MAX_TEXT_LEN);
}

proof fn lemma_leaf_total(s: Seq<u8>)
    requires
        s.len() >= LEAF_MAX_LEN,
    ensures
        spec_leaf(s) matches Some((_, r)) && r.len() >= s.len() - LEAF_MAX_LEN,
{
    let (k, r) = spec_choice(s, LEAF_KINDS).unwrap();
    lemma_leaf_kind_total(k, r);
}

proof fn lemma_leaves_total(s: Seq<u8>, n: nat)
    requires
        s.len() >= n * LEAF_MAX_LEN,
    ensures
        spec_leaves(s, n) matches Some((_, r)) && r.len() >= s.len() - n * LEAF_MAX_LEN,
    decreases n,
{
    if n > 0 {
        lemma_leaves_total(s, (n - 1) as nat);
        lemma_leaf_total(spec_leaves(s, (n - 1) as nat).unwrap().1);
    }
}

proof fn lemma_leaf_entries_total(s: Seq<u8>, n: nat)
    requires
        s.len() >= n * 2 * LEAF_MAX_LEN,
    ensures
        spec_leaf_entries(s, n) matches Some((_, r)) && r.len() >= s.len() - n * 2 * LEAF_MAX_LEN,
    decreases n,
{
    if n > 0 {
        lemma_leaf_entries_total(s, (n - 1) as nat);
        let r = spec_leaf_entries(s, (n - 1) as nat).unwrap().1;
        lemma_leaf_total(r);
        lemma_leaf_total(spec_leaf(r).unwrap().1);
    }
}

/// A generic value decodes from any bytes at least as long as its largest
/// form.
pub proof fn lemma_val_total(s: Seq<u8>)
    requires
        s.len() >= VAL_MAX_LEN,
    ensures
        spec_val(s) matches Some((_, r)) && r.len() >= s.len() - VAL_MAX_LEN,
{
    reveal(spec_val);
    let (k, r) = spec_choice(s, VAL_KINDS).unwrap();
    if k < LEAF_KINDS {
        lemma_leaf_kind_total(k, r);
    } else {
        let (n, r2) = spec_count(r, MAX_ITEMS).unwrap();
        assert(n * 2 * LEAF_MAX_LEN <= MAX_ITEMS * 2 * LEAF_MAX_LEN) by (nonlinear_arith)
            requires
                n <= MAX_ITEMS,
        ;
        assert(n * LEAF_MAX_LEN <= MAX_ITEMS * LEAF_MAX_LEN) by (nonlinear_arith)
            requires
                n <= MAX_ITEMS,
        ;
        if k == VEC_KIND {
            lemma_leaves_total(r2, n as nat);
        } else {
            lemma_leaf_entries_total(r2, n as nat);
        }
    }
}

fn take_error(c: &mut ByteCursor) -> (r: Result<(u32, u32), InsufficientInput>)
    requires
        old(c).wf(),
    ensures
        final(c).wf(),
        r is Ok <==> spec_error(old(c)@) is Some,
        r matches Ok(v) ==> spec_error(old(c)@) == Some((v, final(c)@)),
{
    let t = c.take_choice(ERROR_TYPES)?;
    let code = c.take_u32()?;
    if t == 0 {
        Ok((t, code))
    } else {
        Ok((t, code % ERROR_CODES))
    }
}

fn take_u256(c: &mut ByteCursor) -> (r: Result<(u64, u64, u64, u64), InsufficientInput>)
    requires
        old(c).wf(),
    ensures
        final(c).wf(),
        r is Ok <==> spec_u256(old(c)@) is Some,
        r matches Ok(v) ==> spec_u256(old(c)@) == Some((v, final(c)@)),
{
    let a = c.take_u64()?;
    let b = c.take_u64()?;
    let d = c.take_u64()?;
    let e = c.take_u64()?;
    Ok((a, b, d, e))
}

impl LeafVal {
    /// Decodes the payload of a plain value of kind `k`.
    pub fn decode_kind(k: u32, c: &mut ByteCursor) -> (r: Result<LeafVal, InsufficientInput>)
        requires
            old(c).wf(),
        ensures
            final(c).wf(),
            r is Ok <==> spec_leaf_kind(k, old(c)@) is Some,
            r matches Ok(v) ==> spec_leaf_kind(k, old(c)@) == Some((v@, final(c)@)),
    {
        proof {
            reveal(spec_leaf_kind);
        }
        if k == 0 {
            Ok(LeafVal::Void)
        } else if k == 1 {
            Ok(LeafVal::Bool(c.take_bool()?))
        } else if k == 2 {
            let (t, code) = take_error(c)?;
            Ok(LeafVal::Error(t, code))
        } else if k == 3 {
            Ok(LeafVal::U32(c.take_u32()?))
        } else if k == 4 {
            Ok(LeafVal::I32(c.take_i32()?))
        } else if k == 5 {
            Ok(LeafVal::U64(c.take_u64()?))
        } else if k == 6 {
            Ok(LeafVal::I64(c.take_i64()?))
        } else if k == 7 {
            Ok(LeafVal::U128(c.take_u128()?))
        } else if k == 8 {
            Ok(LeafVal::I128(c.take_i128()?))
        } else if k == 9 {
            let (a, b, d, e) = take_u256(c)?;
            Ok(LeafVal::U256(a, b, d, e))
        } else if k == 10 {
            let (a, b, d, e) = take_u256(c)?;
            Ok(LeafVal::I256(a as i64, b, d, e))
        } else if k == 11 {
            Ok(LeafVal::Bytes(c.take_bytes()?))
        } else if k == 12 {
            Ok(LeafVal::String(c.take_bytes()?))
        } else if k == 13 {
            Ok(LeafVal::Symbol(c.take_symbol()?))
        } else if k == 14 {
            Ok(LeafVal::Address(c.take_exact(ADDRESS_LEN)?))
        } else if k == 15 {
            Ok(LeafVal::Timepoint(c.take_u64()?))
        } else {
            Ok(LeafVal::Duration(c.take_u64()?))
        }
    }

    /// Decodes one plain value.
    pub fn decode(c: &mut ByteCursor) -> (r: Result<LeafVal, InsufficientInput>)
        requires
            old(c).wf(),
        ensures
            final(c).wf(),
            r is Ok <==> spec_leaf(old(c)@) is Some,
            r matches Ok(v) ==> spec_leaf(old(c)@) == Some((v@, final(c)@)),
    {
        let k = c.take_choice(LEAF_KINDS)?;
        LeafVal::decode_kind(k, c)
    }
}

fn decode_leaf_entry(c: &mut ByteCursor) -> (r: Result<(LeafVal, LeafVal), InsufficientInput>)
    requires
        old(c).wf(),
    ensures
        final(c).wf(),
        r is Ok <==> spec_leaf_entry(old(c)@) is Some,
        r matches Ok(e) ==> spec_leaf_entry(old(c)@) == Some(((e.0@, e.1@), final(c)@)),
{
    let k = LeafVal::decode(c)?;
    let v = LeafVal::decode(c)?;
    Ok((k, v))
}

/// Decodes `n` plain values.
fn decode_leaves(c: &mut ByteCursor, n: u8) -> (r: Result<Vec<LeafVal>, InsufficientInput>)
    requires
        old(c).wf(),
    ensures
        final(c).wf(),
        r is Ok <==> spec_leaves(old(c)@, n as nat) is Some,
        r matches Ok(ls) ==> spec_leaves(old(c)@, n as nat) == Some((leaves_view(ls@), final(c)@)),
{
    let ghost s0 = c@;
    let mut ls: Vec<LeafVal> = Vec::new();
    let mut i: u8 = 0;
    while i < n
        invariant
            c.wf(),
            i <= n,
            s0 == old(c)@,
            spec_leaves(s0, i as nat) == Some((leaves_view(ls@), c@)),
        decreases n - i,
    {
        let l = match LeafVal::decode(c) {
            Ok(l) => l,
            Err(e) => {
                proof {
                    assert(spec_leaves(s0, (i + 1) as nat) is None);
                    lemma_leaves_fail_grows(s0, (i + 1) as nat, n as nat);
                }
                return Err(e);
            },
        };
        let ghost prev = ls@;
        let ghost lv = l@;
        ls.push(l);
        proof {
            assert(leaves_view(ls@) =~= leaves_view(prev).push(lv));
        }
        i = i + 1;
    }
    Ok(ls)
}

/// Decodes `n` pairs of plain values.
fn decode_leaf_entries(c: &mut ByteCursor, n: u8) -> (r: Result<
    Vec<(LeafVal, LeafVal)>,
    InsufficientInput,
>)
    requires
        old(c).wf(),
    ensures
        final(c).wf(),
        r is Ok <==> spec_leaf_entries(old(c)@, n as nat) is Some,
        r matches Ok(es) ==> spec_leaf_entries(old(c)@, n as nat) == Some(
            (leaf_entries_view(es@), final(c)@),
        ),
{
    let ghost s0 = c@;
    let mut es: Vec<(LeafVal, LeafVal)> = Vec::new();
    let mut i: u8 = 0;
    while i < n
        invariant
            c.wf(),
            i <= n,
            s0 == old(c)@,
            spec_leaf_entries(s0, i as nat) == Some((leaf_entries_view(es@), c@)),
        decreases n - i,
    {
        let e = match decode_leaf_entry(c) {
            Ok(e) => e,
            Err(err) => {
                proof {
                    assert(spec_leaf_entries(s0, (i + 1) as nat) is None);
                    lemma_leaf_entries_fail_grows(s0, (i + 1) as nat, n as nat);
                }
                return Err(err);
            },
        };
        let ghost prev = es@;
        let ghost ev = (e.0@, e.1@);
        es.push(e);
        proof {
            assert(leaf_entries_view(es@) =~= leaf_entries_view(prev).push(ev));
        }
        i = i + 1;
    }
    Ok(es)
}

impl ValProto {
    /// Decodes one generic value.
    pub fn decode(c: &mut ByteCursor) -> (r: Result<ValProto, InsufficientInput>)
        requires
            old(c).wf(),
        ensures
            final(c).wf(),
            r is Ok <==> spec_val(old(c)@) is Some,
            r matches Ok(v) ==> spec_val(old(c)@) == Some((v@, final(c)@)),
    {
        proof {
            reveal(spec_val);
        }
        let k = c.take_choice(VAL_KINDS)?;
        if k < LEAF_KINDS {
            Ok(ValProto::Leaf(LeafVal::decode_kind(k, c)?))
        } else if k == VEC_KIND {
            let n = c.take_count(MAX_ITEMS)?;
            Ok(ValProto::Vec(decode_leaves(c, n)?))
        } else {
            let n = c.take_count(MAX_ITEMS)?;
            Ok(ValProto::Table(decode_leaf_entries(c, n)?))
        }
    }
}

} // verus!
