//! A byte cursor and the primitive values decoded from it.
//!
//! Every decoder either consumes a fixed, shape-dependent number of bytes and
//! returns a value, or fails with `InsufficientInput` when the cursor runs out.
//! Each one is specified by a spec function on the remaining bytes, so the
//! same remaining bytes always give the same value.
use vstd::prelude::*;

verus! {

/// The cursor ran out of bytes before a whole value could be formed.
#[derive(Clone, Copy, Debug, PartialEq, Eq, Structural)]
pub struct InsufficientInput;

/// Longest byte string, text or symbol that a decoder produces.
pub const MAX_TEXT_LEN: u8 = 32;

/// Most elements that a decoded sequence or map holds.
pub const MAX_ITEMS: u8 = 4;

/// Number of characters a symbol may be made of.
pub const SYMBOL_ALPHABET_LEN: u8 = 63;

/// Value of four bytes read as a little-endian integer.
pub open spec fn le_u32(s: Seq<u8>) -> u32
    recommends
        s.len() >= 4,
{
    (s[0] + s[1] * 0x100 + s[2] * 0x1_0000 + s[3] * 0x100_0000) as u32
}

/// Value of eight bytes read as a little-endian integer.
pub open spec fn le_u64(s: Seq<u8>) -> u64
    recommends
        s.len() >= 8,
{
    (s[0] + s[1] * 0x100 + s[2] * 0x1_0000 + s[3] * 0x100_0000 + s[4] * 0x1_0000_0000 + s[5]
        * 0x100_0000_0000 + s[6] * 0x1_0000_0000_0000 + s[7] * 0x100_0000_0000_0000) as u64
}

/// The first `n` bytes and what follows them, if there are `n`.
pub open spec fn spec_take(s: Seq<u8>, n: int) -> Option<(Seq<u8>, Seq<u8>)> {
    if 0 <= n <= s.len() {
        Some((s.subrange(0, n), s.subrange(n, s.len() as int)))
    } else {
        None
    }
}

pub open spec fn spec_u8(s: Seq<u8>) -> Option<(u8, Seq<u8>)> {
    if s.len() >= 1 {
        Some((s[0], s.subrange(1, s.len() as int)))
    } else {
        None
    }
}

pub open spec fn spec_u32(s: Seq<u8>) -> Option<(u32, Seq<u8>)> {
    if s.len() >= 4 {
        Some((le_u32(s), s.subrange(4, s.len() as int)))
    } else {
        None
    }
}

pub open spec fn spec_u64(s: Seq<u8>) -> Option<(u64, Seq<u8>)> {
    if s.len() >= 8 {
        Some((le_u64(s), s.subrange(8, s.len() as int)))
    } else {
        None
    }
}

pub open spec fn spec_i32(s: Seq<u8>) -> Option<(i32, Seq<u8>)> {
    match spec_u32(s) {
        Some((v, r)) => Some((v as i32, r)),
        None => None,
    }
}

pub open spec fn spec_i64(s: Seq<u8>) -> Option<(i64, Seq<u8>)> {
    match spec_u64(s) {
        Some((v, r)) => Some((v as i64, r)),
        None => None,
    }
}

/// A 128-bit integer: the low eight bytes first, then the high eight.
pub open spec fn spec_u128(s: Seq<u8>) -> Option<(u128, Seq<u8>)> {
    match spec_u64(s) {
        Some((lo, r)) => match spec_u64(r) {
            Some((hi, r2)) => Some(((hi * 0x1_0000_0000_0000_0000 + lo) as u128, r2)),
            None => None,
        },
        None => None,
    }
}

pub open spec fn spec_i128(s: Seq<u8>) -> Option<(i128, Seq<u8>)> {
    match spec_u128(s) {
        Some((v, r)) => Some((v as i128, r)),
        None => None,
    }
}

/// A truth value: the low bit of one byte.
pub open spec fn spec_bool(s: Seq<u8>) -> Option<(bool, Seq<u8>)> {
    match spec_u8(s) {
        Some((b, r)) => Some((b % 2 == 1, r)),
        None => None,
    }
}

/// A choice among `n` alternatives: a four-byte integer taken modulo `n`.
/// Over uniformly random bytes every alternative is equally likely, up to a
/// bias below `n / 2^32`.
pub open spec fn spec_choice(s: Seq<u8>, n: u32) -> Option<(u32, Seq<u8>)>
    recommends
        n > 0,
{
    match spec_u32(s) {
        Some((v, r)) => Some(((v % n) as u32, r)),
        None => None,
    }
}

/// A count of at most `max`: one byte taken modulo `max + 1`.
pub open spec fn spec_count(s: Seq<u8>, max: u8) -> Option<(u8, Seq<u8>)> {
    match spec_u8(s) {
        Some((b, r)) => Some(((b as int % (max as int + 1)) as u8, r)),
        None => None,
    }
}

/// A byte string of at most `MAX_TEXT_LEN` bytes: its length, then its bytes.
pub open spec fn spec_bytes(s: Seq<u8>) -> Option<(Seq<u8>, Seq<u8>)> {
    match spec_count(s, MAX_TEXT_LEN) {
        Some((n, r)) => spec_take(r, n as int),
        None => None,
    }
}

/// The symbol character with index `i`: `_`, then `a`-`z`, `A`-`Z`, `0`-`9`.
pub open spec fn symbol_char(i: u8) -> u8 {
    if i == 0 {
        95u8
    } else if i < 27 {
        (97 + (i - 1)) as u8
    } else if i < 53 {
        (65 + (i - 27)) as u8
    } else {
        (48 + (i - 53)) as u8
    }
}

/// True of the bytes that may stand in a symbol.
pub open spec fn is_symbol_char(c: u8) -> bool {
    c == 95 || (97 <= c <= 122) || (65 <= c <= 90) || (48 <= c <= 57)
}

/// A symbol: a length of at most `MAX_TEXT_LEN`, then one byte per
/// character, each naming a character of the symbol alphabet modulo its size.
pub open spec fn spec_symbol(s: Seq<u8>) -> Option<(Seq<u8>, Seq<u8>)> {
    match spec_bytes(s) {
        Some((raw, r)) => Some((raw.map_values(|b: u8| symbol_char(b % SYMBOL_ALPHABET_LEN)), r)),
        None => None,
    }
}

/// The remaining bytes of a buffer, read from the front.
pub struct ByteCursor {
    data: Vec<u8>,
    pos: usize,
}

impl View for ByteCursor {
    type V = Seq<u8>;

    /// The bytes not yet consumed.
    closed spec fn view(&self) -> Seq<u8> {
        self.data@.subrange(self.pos as int, self.data@.len() as int)
    }
}

impl ByteCursor {
    pub closed spec fn wf(&self) -> bool {
        self.pos <= self.data@.len()
    }

    /// A cursor at the start of `data`.
    pub fn new(data: &[u8]) -> (r: ByteCursor)
        ensures
            r.wf(),
            r@ == data@,
    {
        let mut v: Vec<u8> = Vec::new();
        let mut i: usize = 0;
        while i < data.len()
            invariant
                i <= data@.len(),
                v@ == data@.subrange(0, i as int),
            decreases data@.len() - i,
        {
            v.push(data[i]);
            i = i + 1;
        }
        proof {
            assert(v@ =~= data@);
        }
        ByteCursor { data: v, pos: 0 }
    }

    /// Number of bytes not yet consumed.
    pub fn remaining(&self) -> (r: usize)
        requires
            self.wf(),
        ensures
            r == self@.len(),
    {
        self.data.len() - self.pos
    }

    pub fn take_u8(&mut self) -> (r: Result<u8, InsufficientInput>)
        requires
            old(self).wf(),
        ensures
            final(self).wf(),
            r is Ok <==> spec_u8(old(self)@) is Some,
            r matches Ok(v) ==> spec_u8(old(self)@) == Some((v, final(self)@)),
    {
        if self.pos < self.data.len() {
            let b = self.data[self.pos];
            self.pos = self.pos + 1;
            proof {
                assert(self@ =~= old(self)@.subrange(1, old(self)@.len() as int));
            }
            Ok(b)
        } else {
            Err(InsufficientInput)
        }
    }

    pub fn take_u32(&mut self) -> (r: Result<u32, InsufficientInput>)
        requires
            old(self).wf(),
        ensures
            final(self).wf(),
            r is Ok <==> spec_u32(old(self)@) is Some,
            r matches Ok(v) ==> spec_u32(old(self)@) == Some((v, final(self)@)),
    {
        if self.data.len() - self.pos >= 4 {
            let p = self.pos;
            let v: u32 = self.data[p] as u32 + self.data[p + 1] as u32 * 0x100 + self.data[p + 2]
                as u32 * 0x1_0000 + self.data[p + 3] as u32 * 0x100_0000;
            self.pos = p + 4;
            proof {
                assert(self@ =~= old(self)@.subrange(4, old(self)@.len() as int));
            }
            Ok(v)
        } else {
            Err(InsufficientInput)
        }
    }

    pub fn take_u64(&mut self) -> (r: Result<u64, InsufficientInput>)
        requires
            old(self).wf(),
        ensures
            final(self).wf(),
            r is Ok <==> spec_u64(old(self)@) is Some,
            r matches Ok(v) ==> spec_u64(old(self)@) == Some((v, final(self)@)),
    {
        if self.data.len() - self.pos >= 8 {
            let p = self.pos;
            let d = &self.data;
            let v: u64 = d[p] as u64 + d[p + 1] as u64 * 0x100 + d[p + 2] as u64 * 0x1_0000 + d[p
                + 3] as u64 * 0x100_0000 + d[p + 4] as u64 * 0x1_0000_0000 + d[p + 5] as u64
                * 0x100_0000_0000 + d[p + 6] as u64 * 0x1_0000_0000_0000 + d[p + 7] as u64
                * 0x100_0000_0000_0000;
            self.pos = p + 8;
            proof {
                assert(self@ =~= old(self)@.subrange(8, old(self)@.len() as int));
            }
            Ok(v)
        } else {
            Err(InsufficientInput)
        }
    }

    pub fn take_i32(&mut self) -> (r: Result<i32, InsufficientInput>)
        requires
            old(self).wf(),
        ensures
            final(self).wf(),
            r is Ok <==> spec_i32(old(self)@) is Some,
            r matches Ok(v) ==> spec_i32(old(self)@) == Some((v, final(self)@)),
    {
        let v = self.take_u32()?;
        Ok(v as i32)
    }

    pub fn take_i64(&mut self) -> (r: Result<i64, InsufficientInput>)
        requires
            old(self).wf(),
        ensures
            final(self).wf(),
            r is Ok <==> spec_i64(old(self)@) is Some,
            r matches Ok(v) ==> spec_i64(old(self)@) == Some((v, final(self)@)),
    {
        let v = self.take_u64()?;
        Ok(v as i64)
    }

    pub fn take_u128(&mut self) -> (r: Result<u128, InsufficientInput>)
        requires
            old(self).wf(),
        ensures
            final(self).wf(),
            r is Ok <==> spec_u128(old(self)@) is Some,
            r matches Ok(v) ==> spec_u128(old(self)@) == Some((v, final(self)@)),
    {
        let lo = self.take_u64()?;
        let hi = self.take_u64()?;
        Ok(hi as u128 * 0x1_0000_0000_0000_0000 + lo as u128)
    }

    pub fn take_i128(&mut self) -> (r: Result<i128, InsufficientInput>)
        requires
            old(self).wf(),
        ensures
            final(self).wf(),
            r is Ok <==> spec_i128(old(self)@) is Some,
            r matches Ok(v) ==> spec_i128(old(self)@) == Some((v, final(self)@)),
    {
        let v = self.take_u128()?;
        Ok(v as i128)
    }

    pub fn take_bool(&mut self) -> (r: Result<bool, InsufficientInput>)
        requires
            old(self).wf(),
        ensures
            final(self).wf(),
            r is Ok <==> spec_bool(old(self)@) is Some,
            r matches Ok(v) ==> spec_bool(old(self)@) == Some((v, final(self)@)),
    {
        let b = self.take_u8()?;
        Ok(b % 2 == 1)
    }

    /// Picks one of `n` alternatives.
    pub fn take_choice(&mut self, n: u32) -> (r: Result<u32, InsufficientInput>)
        requires
            old(self).wf(),
            n > 0,
        ensures
            final(self).wf(),
            r is Ok <==> spec_choice(old(self)@, n) is Some,
            r matches Ok(v) ==> spec_choice(old(self)@, n) == Some((v, final(self)@)) && v < n,
    {
        let v = self.take_u32()?;
        Ok(v % n)
    }

    /// Reads a count of at most `max`.
    pub fn take_count(&mut self, max: u8) -> (r: Result<u8, InsufficientInput>)
        requires
            old(self).wf(),
            max < 255,
        ensures
            final(self).wf(),
            r is Ok <==> spec_count(old(self)@, max) is Some,
            r matches Ok(v) ==> spec_count(old(self)@, max) == Some((v, final(self)@)) && v <= max,
    {
        let b = self.take_u8()?;
        Ok(b % (max + 1))
    }

    /// The next `n` bytes.
    pub fn take_exact(&mut self, n: usize) -> (r: Result<Vec<u8>, InsufficientInput>)
        requires
            old(self).wf(),
        ensures
            final(self).wf(),
            r is Ok <==> spec_take(old(self)@, n as int) is Some,
            r matches Ok(v) ==> spec_take(old(self)@, n as int) == Some((v@, final(self)@)),
    {
        if self.data.len() - self.pos >= n {
            let mut v: Vec<u8> = Vec::new();
            let start = self.pos;
            let end = start + n;
            let mut j: usize = start;
            while j < end
                invariant
                    self.wf(),
                    self.data@ == old(self).data@,
                    self.pos == start,
                    start == old(self).pos,
                    start <= j <= end,
                    end == start + n,
                    end <= self.data@.len(),
                    v@ == self.data@.subrange(start as int, j as int),
                decreases end - j,
            {
                v.push(self.data[j]);
                j = j + 1;
            }
            self.pos = start + n;
            proof {
                assert(v@ =~= old(self)@.subrange(0, n as int));
                assert(self@ =~= old(self)@.subrange(n as int, old(self)@.len() as int));
            }
            Ok(v)
        } else {
            Err(InsufficientInput)
        }
    }

    /// A byte string of at most `MAX_TEXT_LEN` bytes.
    pub fn take_bytes(&mut self) -> (r: Result<Vec<u8>, InsufficientInput>)
        requires
            old(self).wf(),
        ensures
            final(self).wf(),
            r is Ok <==> spec_bytes(old(self)@) is Some,
            r matches Ok(v) ==> spec_bytes(old(self)@) == Some((v@, final(self)@)),
    {
        let n = self.take_count(MAX_TEXT_LEN)?;
        self.take_exact(n as usize)
    }

    /// A symbol of at most `MAX_TEXT_LEN` characters of the symbol alphabet.
    pub fn take_symbol(&mut self) -> (r: Result<Vec<u8>, InsufficientInput>)
        requires
            old(self).wf(),
        ensures
            final(self).wf(),
            r is Ok <==> spec_symbol(old(self)@) is Some,
            r matches Ok(v) ==> spec_symbol(old(self)@) == Some((v@, final(self)@)),
    {
        let raw = self.take_bytes()?;
        let mut out: Vec<u8> = Vec::new();
        let mut i: usize = 0;
        while i < raw.len()
            invariant
                i <= raw@.len(),
                out@ == raw@.subrange(0, i as int).map_values(
                    |b: u8| symbol_char(b % SYMBOL_ALPHABET_LEN),
                ),
            decreases raw@.len() - i,
        {
            out.push(symbol_char_at(raw[i] % SYMBOL_ALPHABET_LEN));
            i = i + 1;
            proof {
                assert(raw@.subrange(0, i as int).drop_last() =~= raw@.subrange(0, i - 1));
            }
        }
        proof {
            assert(raw@.subrange(0, i as int) =~= raw@);
            assert(out@ =~= raw@.map_values(|b: u8| symbol_char(b % SYMBOL_ALPHABET_LEN)));
        }
        Ok(out)
    }
}

/// The symbol character with index `i`.
pub fn symbol_char_at(i: u8) -> (r: u8)
    requires
        i < SYMBOL_ALPHABET_LEN,
    ensures
        r == symbol_char(i),
        is_symbol_char(r),
{
    if i == 0 {
        95u8
    } else if i < 27 {
        97u8 + (i - 1)
    } else if i < 53 {
        65u8 + (i - 27)
    } else {
        48u8 + (i - 53)
    }
}

} // verus!
