//! Telemetry: the log header, the record line of a completed run, and the
//! decision of what a run appends to the log.
use vstd::prelude::*;
use vstd::string::StringSliceAdditionalSpecFns;

verus! {

/// The byte that separates the fields of a record.
pub const FIELD_SEPARATOR: u8 = 124;

/// The byte that quotes the two instruction fields.
pub const QUOTE: u8 = 34;

/// The byte that ends a record.
pub const LINE_END: u8 = 10;

/// How a host call ended.
#[derive(Clone, Copy, Debug, PartialEq, Eq, Structural)]
pub enum Outcome {
    /// The host returned, with a result or with an error of its own.
    Completed,
    /// The call unwound out of the host.
    Aborted,
}

/// What the host's cost meter and the clock measured for one run.
#[derive(Clone, Copy, Debug, PartialEq, Eq, Structural)]
pub struct Measurement {
    pub cpu_cost: u64,
    pub memory_cost: u64,
    pub duration_nanos: u128,
}

/// The ASCII digit of `d`, for `d` below ten.
pub open spec fn digit(d: nat) -> u8 {
    (48 + d) as u8
}

/// The decimal digits of `n`, most significant first, with no leading zero.
pub open spec fn decimal(n: nat) -> Seq<u8>
    decreases n,
{
    if n < 10 {
        seq![digit(n)]
    } else {
        decimal(n / 10).push(digit(n % 10))
    }
}

/// The record of one completed run: the operation's name, the adapted and
/// the decoded instruction in quotes, the CPU cost, the memory cost and the
/// duration in nanoseconds, separated by `|` and ended by a line end.
pub open spec fn record_bytes(
    name: Seq<u8>,
    adapted: Seq<u8>,
    decoded: Seq<u8>,
    m: Measurement,
) -> Seq<u8> {
    name + seq![FIELD_SEPARATOR, QUOTE] + adapted + seq![QUOTE, FIELD_SEPARATOR, QUOTE] + decoded
        + seq![QUOTE, FIELD_SEPARATOR] + decimal(m.cpu_cost as nat) + seq![FIELD_SEPARATOR]
        + decimal(m.memory_cost as nat) + seq![FIELD_SEPARATOR] + decimal(m.duration_nanos as nat)
        + seq![LINE_END]
}

/// The header line of the log.
pub fn telemetry_header() -> (r: &'static str)
    ensures
        r@ == "Syscalls|SyscallsInput|ArbitraryInput|CPU|MEM|Duration"@,
{
    "Syscalls|SyscallsInput|ArbitraryInput|CPU|MEM|Duration"
}

fn push_all(out: &mut Vec<u8>, s: &[u8])
    ensures
        final(out)@ == old(out)@ + s@,
{
    let mut i: usize = 0;
    while i < s.len()
        invariant
            i <= s@.len(),
            out@ == old(out)@ + s@.subrange(0, i as int),
        decreases s@.len() - i,
    {
        out.push(s[i]);
        i = i + 1;
        assert(out@ =~= old(out)@ + s@.subrange(0, i as int));
    }
    assert(s@.subrange(0, i as int) =~= s@);
}

/// Appends the decimal digits of `n`.
pub fn push_decimal(out: &mut Vec<u8>, n: u128)
    ensures
        final(out)@ == old(out)@ + decimal(n as nat),
    decreases n,
{
    if n < 10 {
        out.push(48u8 + n as u8);
        assert(out@ =~= old(out)@ + decimal(n as nat));
    } else {
        push_decimal(out, n / 10);
        out.push(48u8 + (n % 10) as u8);
        assert(out@ =~= old(out)@ + decimal(n as nat));
    }
}

/// The record line of a completed run.
pub fn telemetry_line(name: &str, adapted: &str, decoded: &str, m: Measurement) -> (r: Vec<u8>)
    ensures
        r@ == record_bytes(name.spec_bytes(), adapted.spec_bytes(), decoded.spec_bytes(), m),
{
    let mut out: Vec<u8> = Vec::new();
    push_all(&mut out, name.as_bytes());
    out.push(FIELD_SEPARATOR);
    out.push(QUOTE);
    push_all(&mut out, adapted.as_bytes());
    out.push(QUOTE);
    out.push(FIELD_SEPARATOR);
    out.push(QUOTE);
    push_all(&mut out, decoded.as_bytes());
    out.push(QUOTE);
    out.push(FIELD_SEPARATOR);
    push_decimal(&mut out, m.cpu_cost as u128);
    out.push(FIELD_SEPARATOR);
    push_decimal(&mut out, m.memory_cost as u128);
    out.push(FIELD_SEPARATOR);
    push_decimal(&mut out, m.duration_nanos);
    out.push(LINE_END);
    assert(out@ =~= record_bytes(
        name.spec_bytes(),
        adapted.spec_bytes(),
        decoded.spec_bytes(),
        m,
    ));
    out
}

/// What a run whose host call ended with `outcome` appends to the log: the
/// record line if the call completed, nothing if it aborted.
pub fn record_for(outcome: Outcome, name: &str, adapted: &str, decoded: &str, m: Measurement) -> (r:
    Option<Vec<u8>>)
    ensures
        r is Some <==> outcome == Outcome::Completed,
        r matches Some(line) ==> line@ == record_bytes(
            name.spec_bytes(),
            adapted.spec_bytes(),
            decoded.spec_bytes(),
            m,
        ),
{
    match outcome {
        Outcome::Completed => Some(telemetry_line(name, adapted, decoded, m)),
        Outcome::Aborted => None,
    }
}

/// Number of occurrences of byte `x` in `s`.
pub open spec fn count_byte(s: Seq<u8>, x: u8) -> nat
    decreases s.len(),
{
    if s.len() == 0 {
        0
    } else {
        count_byte(s.drop_last(), x) + if s.last() == x {
            1nat
        } else {
            0nat
        }
    }
}

proof fn lemma_count_concat(a: Seq<u8>, b: Seq<u8>, x: u8)
    ensures
        count_byte(a + b, x) == count_byte(a, x) + count_byte(b, x),
    decreases b.len(),
{
    if b.len() > 0 {
        assert((a + b).drop_last() =~= a + b.drop_last());
        lemma_count_concat(a, b.drop_last(), x);
    } else {
        assert(a + b =~= a);
    }
}

proof fn lemma_decimal_digits(n: nat, x: u8)
    requires
        x < 48 || x > 57,
    ensures
        count_byte(decimal(n), x) == 0,
    decreases n,
{
    reveal_with_fuel(count_byte, 2);
    if n >= 10 {
        lemma_decimal_digits(n / 10, x);
        assert(decimal(n).drop_last() =~= decimal(n / 10));
        assert(n % 10 < 10);
        assert(decimal(n).last() == digit(n % 10));
    } else {
        assert(seq![digit(n)].drop_last() =~= Seq::<u8>::empty());
    }
}

/// One if byte `i` of `s` is `x`, else zero.
pub open spec fn hit(s: Seq<u8>, i: int, x: u8) -> nat {
    if 0 <= i < s.len() && s[i] == x {
        1
    } else {
        0
    }
}

proof fn lemma_count_literal(s: Seq<u8>, x: u8)
    requires
        s.len() <= 3,
    ensures
        count_byte(s, x) == hit(s, 0, x) + hit(s, 1, x) + hit(s, 2, x),
{
    reveal_with_fuel(count_byte, 4);
    if s.len() > 0 {
        assert(s.drop_last().len() == s.len() - 1);
        if s.len() > 1 {
            assert(s.drop_last().drop_last().len() == s.len() - 2);
            if s.len() > 2 {
                assert(s.drop_last().drop_last().drop_last().len() == 0);
            }
        }
    }
}

/// How often a byte that is no digit occurs in a record: in the three text
/// fields, plus in the fixed separators and quotes.
proof fn lemma_record_count(
    name: Seq<u8>,
    adapted: Seq<u8>,
    decoded: Seq<u8>,
    m: Measurement,
    x: u8,
)
    requires
        x < 48 || x > 57,
    ensures
        count_byte(record_bytes(name, adapted, decoded, m), x) == count_byte(name, x) + count_byte(
            adapted,
            x,
        ) + count_byte(decoded, x) + count_byte(seq![FIELD_SEPARATOR, QUOTE], x) + count_byte(
            seq![QUOTE, FIELD_SEPARATOR, QUOTE],
            x,
        ) + count_byte(seq![QUOTE, FIELD_SEPARATOR], x) + 2 * count_byte(seq![FIELD_SEPARATOR], x)
            + count_byte(seq![LINE_END], x),
{
    let s1 = seq![FIELD_SEPARATOR, QUOTE];
    let s2 = seq![QUOTE, FIELD_SEPARATOR, QUOTE];
    let s3 = seq![QUOTE, FIELD_SEPARATOR];
    let s4 = seq![FIELD_SEPARATOR];
    let s5 = seq![LINE_END];
    let d1 = decimal(m.cpu_cost as nat);
    let d2 = decimal(m.memory_cost as nat);
    let d3 = decimal(m.duration_nanos as nat);
    lemma_decimal_digits(m.cpu_cost as nat, x);
    lemma_decimal_digits(m.memory_cost as nat, x);
    lemma_decimal_digits(m.duration_nanos as nat, x);
    let a1 = name + s1;
    let a2 = a1 + adapted;
    let a3 = a2 + s2;
    let a4 = a3 + decoded;
    let a5 = a4 + s3;
    let a6 = a5 + d1;
    let a7 = a6 + s4;
    let a8 = a7 + d2;
    let a9 = a8 + s4;
    let a10 = a9 + d3;
    lemma_count_concat(name, s1, x);
    lemma_count_concat(a1, adapted, x);
    lemma_count_concat(a2, s2, x);
    lemma_count_concat(a3, decoded, x);
    lemma_count_concat(a4, s3, x);
    lemma_count_concat(a5, d1, x);
    lemma_count_concat(a6, s4, x);
    lemma_count_concat(a7, d2, x);
    lemma_count_concat(a8, s4, x);
    lemma_count_concat(a9, d3, x);
    lemma_count_concat(a10, s5, x);
    assert(record_bytes(name, adapted, decoded, m) == a10 + s5);
}

/// A record is one line of six fields: when the name and the two instruction
/// texts hold neither `|` nor a line end, the record holds exactly five
/// separators and exactly one line end, which is its last byte.
pub proof fn lemma_record_schema(name: Seq<u8>, adapted: Seq<u8>, decoded: Seq<u8>, m: Measurement)
    requires
        count_byte(name, FIELD_SEPARATOR) == 0,
        count_byte(adapted, FIELD_SEPARATOR) == 0,
        count_byte(decoded, FIELD_SEPARATOR) == 0,
        count_byte(name, LINE_END) == 0,
        count_byte(adapted, LINE_END) == 0,
        count_byte(decoded, LINE_END) == 0,
    ensures
        count_byte(record_bytes(name, adapted, decoded, m), FIELD_SEPARATOR) == 5,
        count_byte(record_bytes(name, adapted, decoded, m), LINE_END) == 1,
        record_bytes(name, adapted, decoded, m).last() == LINE_END,
{
    lemma_record_count(name, adapted, decoded, m, FIELD_SEPARATOR);
    lemma_record_count(name, adapted, decoded, m, LINE_END);
    lemma_count_literal(seq![FIELD_SEPARATOR, QUOTE], FIELD_SEPARATOR);
    lemma_count_literal(seq![QUOTE, FIELD_SEPARATOR, QUOTE], FIELD_SEPARATOR);
    lemma_count_literal(seq![QUOTE, FIELD_SEPARATOR], FIELD_SEPARATOR);
    lemma_count_literal(seq![FIELD_SEPARATOR], FIELD_SEPARATOR);
    lemma_count_literal(seq![LINE_END], FIELD_SEPARATOR);
    lemma_count_literal(seq![FIELD_SEPARATOR, QUOTE], LINE_END);
    lemma_count_literal(seq![QUOTE, FIELD_SEPARATOR, QUOTE], LINE_END);
    lemma_count_literal(seq![QUOTE, FIELD_SEPARATOR], LINE_END);
    lemma_count_literal(seq![FIELD_SEPARATOR], LINE_END);
    lemma_count_literal(seq![LINE_END], LINE_END);
}
} // verus!
