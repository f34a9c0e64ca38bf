//! A bounds-checked cursor over a byte slice.

use vstd::prelude::*;

verus! {

/// The value of two bytes read as a little-endian 16-bit integer.
pub open spec fn le_u16(lo: u8, hi: u8) -> int {
    lo as int + 256 * (hi as int)
}

/// The little-endian 16-bit integer held at `at` and `at + 1`.
pub open spec fn le_u16_at(bytes: Seq<u8>, at: int) -> int
    recommends
        0 <= at,
        at + 2 <= bytes.len(),
{
    le_u16(bytes[at], bytes[at + 1])
}

/// The little-endian 32-bit integer held at `at` .. `at + 3`.
pub open spec fn le_u32_at(bytes: Seq<u8>, at: int) -> int
    recommends
        0 <= at,
        at + 4 <= bytes.len(),
{
    bytes[at] as int + 256 * (bytes[at + 1] as int) + 65536 * (bytes[at + 2] as int) + 16777216
        * (bytes[at + 3] as int)
}

/// The two bytes that hold `v` in little-endian order.
pub open spec fn u16_le_bytes(v: int) -> Seq<u8>
    recommends
        0 <= v <= 0xFFFF,
{
    seq![(v % 256) as u8, (v / 256) as u8]
}

/// A read position in a borrowed byte slice. Every read checks the bytes
/// that are left and moves the position only when it succeeds.
pub struct Reader<'a> {
    bytes: &'a [u8],
    pos: usize,
}

impl<'a> Reader<'a> {
    /// The bytes the reader was made over.
    pub closed spec fn source(&self) -> Seq<u8> {
        self.bytes@
    }

    /// The number of bytes already read.
    pub closed spec fn offset(&self) -> int {
        self.pos as int
    }

    /// The position never passes the end of the source.
    pub closed spec fn wf(&self) -> bool {
        self.pos <= self.bytes@.len()
    }

    /// Whether at least `n` bytes are left.
    pub open spec fn has(&self, n: int) -> bool {
        self.offset() + n <= self.source().len()
    }

    /// The bytes not yet read.
    pub open spec fn rest(&self) -> Seq<u8> {
        self.source().subrange(self.offset(), self.source().len() as int)
    }

    pub proof fn lemma_wf_bounds(&self)
        requires
            self.wf(),
        ensures
            0 <= self.offset() <= self.source().len(),
    {
    }

    /// A reader at the start of `bytes`.
    pub fn new(bytes: &'a [u8]) -> (r: Self)
        ensures
            r.wf(),
            r.source() == bytes@,
            r.offset() == 0,
    {
        Reader { bytes, pos: 0 }
    }

    /// How many bytes are left.
    pub fn remaining(&self) -> (n: usize)
        requires
            self.wf(),
        ensures
            n == self.source().len() - self.offset(),
    {
        self.bytes.len() - self.pos
    }

    /// Reads one byte, or returns `None` at the end and stays in place.
    pub fn read_u8(&mut self) -> (r: Option<u8>)
        requires
            old(self).wf(),
        ensures
            final(self).wf(),
            final(self).source() == old(self).source(),
            match r {
                Some(v) => old(self).has(1) && v == old(self).source()[old(self).offset()] && final(self).offset()
                    == old(self).offset() + 1,
                None => !old(self).has(1) && final(self).offset() == old(self).offset(),
            },
    {
        if self.bytes.len() - self.pos < 1 {
            return None;
        }
        let b: u8 = self.bytes[self.pos];
        self.pos = self.pos + 1;
        Some(b)
    }

    /// Reads a little-endian `u16`, or returns `None` when fewer than two
    /// bytes are left and stays in place.
    pub fn read_u16_le(&mut self) -> (r: Option<u16>)
        requires
            old(self).wf(),
        ensures
            final(self).wf(),
            final(self).source() == old(self).source(),
            match r {
                Some(v) => old(self).has(2) && v == le_u16_at(old(self).source(), old(self).offset()) && final(self).offset()
                    == old(self).offset() + 2,
                None => !old(self).has(2) && final(self).offset() == old(self).offset(),
            },
    {
        if self.bytes.len() - self.pos < 2 {
            return None;
        }
        let lo: u16 = self.bytes[self.pos] as u16;
        let hi: u16 = self.bytes[self.pos + 1] as u16;
        self.pos = self.pos + 2;
        Some(lo + 256 * hi)
    }

    /// The little-endian `u32` in the next four bytes, or `None` when fewer
    /// are left. The position stays.
    pub fn peek_u32_le(&self) -> (r: Option<u32>)
        requires
            self.wf(),
        ensures
            match r {
                Some(v) => self.has(4) && v == le_u32_at(self.source(), self.offset()),
                None => !self.has(4),
            },
    {
        if self.bytes.len() - self.pos < 4 {
            return None;
        }
        let b0: u32 = self.bytes[self.pos] as u32;
        let b1: u32 = self.bytes[self.pos + 1] as u32;
        let b2: u32 = self.bytes[self.pos + 2] as u32;
        let b3: u32 = self.bytes[self.pos + 3] as u32;
        Some(b0 + 256 * b1 + 65536 * b2 + 16777216 * b3)
    }

    /// Reads the next `n` bytes, or returns `None` when fewer are left and
    /// stays in place.
    pub fn read_bytes(&mut self, n: usize) -> (r: Option<&'a [u8]>)
        requires
            old(self).wf(),
        ensures
            final(self).wf(),
            final(self).source() == old(self).source(),
            match r {
                Some(v) => old(self).has(n as int) && v@ == old(self).source().subrange(old(self).offset(), old(self).offset() + n) && final(self).offset()
                    == old(self).offset() + n as int,
                None => !old(self).has(n as int) && final(self).offset() == old(self).offset(),
            },
    {
        if self.bytes.len() - self.pos < n {
            return None;
        }
        let out: &'a [u8] = vstd::slice::slice_subrange(self.bytes, self.pos, self.pos + n);
        self.pos = self.pos + n;
        Some(out)
    }

    /// Reads every byte that is left.
    pub fn read_rest(&mut self) -> (r: &'a [u8])
        requires
            old(self).wf(),
        ensures
            final(self).wf(),
            final(self).source() == old(self).source(),
            final(self).offset() == old(self).source().len(),
            r@ == old(self).rest(),
    {
        let out: &'a [u8] = vstd::slice::slice_subrange(self.bytes, self.pos, self.bytes.len());
        self.pos = self.bytes.len();
        out
    }
}

/// The `N` bytes of `bytes` as an array.
pub fn to_array<const N: usize>(bytes: &[u8]) -> (r: [u8; N])
    requires
        bytes@.len() == N,
    ensures
        r@ == bytes@,
{
    let mut out = [0u8; N];
    let mut i: usize = 0;
    while i < N
        invariant
            bytes@.len() == N,
            i <= N,
            forall|j: int| 0 <= j < i ==> out@[j] == bytes@[j],
        decreases N - i,
    {
        out[i] = bytes[i];
        i = i + 1;
    }
    assert(out@ =~= bytes@);
    out
}

/// Whether two byte slices hold the same bytes.
pub fn bytes_eq(a: &[u8], b: &[u8]) -> (r: bool)
    ensures
        r == (a@ == b@),
{
    if a.len() != b.len() {
        return false;
    }
    let mut i: usize = 0;
    while i < a.len()
        invariant
            a@.len() == b@.len(),
            i <= a@.len(),
            forall|j: int| 0 <= j < i ==> a@[j] == b@[j],
        decreases a@.len() - i,
    {
        if a[i] != b[i] {
            return false;
        }
        i = i + 1;
    }
    assert(a@ =~= b@);
    true
}

} // verus!
