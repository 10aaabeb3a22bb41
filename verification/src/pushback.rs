//! The pushback buffer of the WASI byte stream: bytes a reader took past a
//! packet boundary and handed back, which the next reads return before any
//! new bytes from the socket.
use vstd::prelude::*;

verus! {

/// The smaller of `a` and `b`.
pub open spec fn min_nat(a: nat, b: nat) -> nat {
    if a <= b {
        a
    } else {
        b
    }
}

/// A read of up to `buf.len()` bytes from the pending bytes `pending`: the
/// buffer after the read, the bytes still pending, and how many bytes were
/// read.
pub open spec fn read_result(pending: Seq<u8>, buf: Seq<u8>) -> (Seq<u8>, Seq<u8>, nat) {
    let n = min_nat(pending.len(), buf.len());
    (pending.subrange(0, n as int) + buf.subrange(n as int, buf.len() as int), pending.subrange(
        n as int,
        pending.len() as int,
    ), n)
}

/// Bytes handed back to a stream, returned by the next reads before any
/// bytes from the socket.
pub struct PushbackBuffer {
    bytes: Vec<u8>,
}

impl View for PushbackBuffer {
    type V = Seq<u8>;

    closed spec fn view(&self) -> Seq<u8> {
        self.bytes@
    }
}

impl PushbackBuffer {
    /// An empty buffer.
    pub fn new() -> (b: Self)
        ensures
            b@ == Seq::<u8>::empty(),
    {
        PushbackBuffer { bytes: Vec::new() }
    }

    /// Whether no byte is pending.
    pub fn is_empty(&self) -> (r: bool)
        ensures
            r == (self@.len() == 0),
    {
        self.bytes.len() == 0
    }

    /// Hands `bytes` back: they come before any bytes already pending.
    pub fn pushback(&mut self, bytes: &[u8])
        ensures
            final(self)@ == bytes@ + old(self)@,
    {
        if bytes.len() == 0 {
            assert(bytes@ + old(self)@ =~= old(self)@);
            return ;
        }
        let mut combined: Vec<u8> = Vec::new();
        let mut i: usize = 0;
        while i < bytes.len()
            invariant
                i <= bytes@.len(),
                combined@ == bytes@.subrange(0, i as int),
            decreases bytes@.len() - i,
        {
            combined.push(bytes[i]);
            i = i + 1;
            assert(combined@ =~= bytes@.subrange(0, i as int));
        }
        let mut j: usize = 0;
        while j < self.bytes.len()
            invariant
                j <= self.bytes@.len(),
                self@ == old(self)@,
                combined@ == bytes@ + self.bytes@.subrange(0, j as int),
            decreases self.bytes@.len() - j,
        {
            combined.push(self.bytes[j]);
            j = j + 1;
            assert(combined@ =~= bytes@ + self.bytes@.subrange(0, j as int));
        }
        assert(self.bytes@.subrange(0, self.bytes@.len() as int) =~= self.bytes@);
        self.bytes = combined;
    }

    /// Moves pending bytes into `buf`, as many as are pending and fit, and
    /// returns how many moved.
    pub fn read_into(&mut self, buf: &mut [u8]) -> (n: usize)
        ensures
            (final(buf)@, final(self)@, n as nat) == read_result(old(self)@, old(buf)@),
    {
        let n: usize = if self.bytes.len() <= buf.len() {
            self.bytes.len()
        } else {
            buf.len()
        };
        let mut i: usize = 0;
        while i < n
            invariant
                n == min_nat(self@.len(), old(buf)@.len()),
                self@ == old(self)@,
                i <= n,
                buf@.len() == old(buf)@.len(),
                buf@ == self@.subrange(0, i as int) + old(buf)@.subrange(i as int, buf@.len() as int),
            decreases n - i,
        {
            buf[i] = self.bytes[i];
            i = i + 1;
            assert(buf@ =~= self@.subrange(0, i as int) + old(buf)@.subrange(
                i as int,
                buf@.len() as int,
            ));
        }
        let mut rest: Vec<u8> = Vec::new();
        let mut k: usize = n;
        while k < self.bytes.len()
            invariant
                n <= k <= self.bytes@.len(),
                self@ == old(self)@,
                rest@ == self.bytes@.subrange(n as int, k as int),
            decreases self.bytes@.len() - k,
        {
            rest.push(self.bytes[k]);
            k = k + 1;
            assert(rest@ =~= self.bytes@.subrange(n as int, k as int));
        }
        self.bytes = rest;
        n
    }
}

/// Bytes handed back are what the next read returns first: when the buffer
/// read into has room for them, they fill its start.
pub proof fn law_pushback_read_first(pending: Seq<u8>, pushed: Seq<u8>, buf: Seq<u8>)
    requires
        pushed.len() <= buf.len(),
    ensures
        read_result(pushed + pending, buf).0.subrange(0, pushed.len() as int) == pushed,
{
    let (out, _, n) = read_result(pushed + pending, buf);
    assert(n >= pushed.len());
    assert(out.subrange(0, pushed.len() as int) =~= pushed);
}

/// Reading exactly as many bytes as were handed back returns them and
/// leaves pending what was pending before.
pub proof fn law_pushback_then_read_restores(pending: Seq<u8>, pushed: Seq<u8>, buf: Seq<u8>)
    requires
        buf.len() == pushed.len(),
    ensures
        read_result(pushed + pending, buf).0 == pushed,
        read_result(pushed + pending, buf).1 == pending,
{
    let (out, rest, n) = read_result(pushed + pending, buf);
    assert(n == pushed.len());
    assert(out =~= pushed);
    assert(rest =~= pending);
}

} // verus!
