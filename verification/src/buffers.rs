//! Copying and joining byte buffers.

use vstd::prelude::*;

verus! {

/// Copies a slice of bytes.
pub fn copy_slice(bytes: &[u8]) -> (out: Vec<u8>)
    ensures
        out@ == bytes@,
{
    let n: usize = bytes.len();
    let mut out: Vec<u8> = Vec::with_capacity(n);
    let mut i: usize = 0;
    while i < n
        invariant
            n == bytes@.len(),
            i <= n,
            out@ == bytes@.subrange(0, i as int),
        decreases n - i,
    {
        out.push(bytes[i]);
        assert(out@ == bytes@.subrange(0, i + 1));
        i += 1;
    }
    assert(bytes@.subrange(0, n as int) == bytes@);
    out
}

/// Copies a byte buffer.
pub fn copy_bytes(bytes: &Vec<u8>) -> (out: Vec<u8>)
    ensures
        out@ == bytes@,
{
    copy_slice(bytes.as_slice())
}

/// Appends bytes to a buffer.
pub fn append_bytes(to: &mut Vec<u8>, from: &[u8])
    ensures
        final(to)@ == old(to)@ + from@,
{
    let n: usize = from.len();
    let mut i: usize = 0;
    assert(to@ + from@.subrange(0, 0) == to@);
    while i < n
        invariant
            n == from@.len(),
            i <= n,
            to@ == old(to)@ + from@.subrange(0, i as int),
        decreases n - i,
    {
        to.push(from[i]);
        assert(to@ == old(to)@ + from@.subrange(0, i + 1));
        i += 1;
    }
    assert(from@.subrange(0, n as int) == from@);
}

/// The first `n` bytes of a buffer, or all of it where it has fewer.
pub fn first_bytes(bytes: &[u8], n: usize) -> (out: Vec<u8>)
    ensures
        out@ == bytes@.subrange(0, if n <= bytes@.len() { n as int } else { bytes@.len() as int }),
{
    let len: usize = if n <= bytes.len() {
        n
    } else {
        bytes.len()
    };
    let mut out: Vec<u8> = Vec::with_capacity(len);
    let mut i: usize = 0;
    while i < len
        invariant
            len <= bytes@.len(),
            i <= len,
            out@ == bytes@.subrange(0, i as int),
        decreases len - i,
    {
        out.push(bytes[i]);
        assert(out@ == bytes@.subrange(0, i + 1));
        i += 1;
    }
    out
}

} // verus!
