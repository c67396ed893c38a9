//! Small verified helpers on byte vectors.

use vstd::prelude::*;

verus! {

/// The index of the last occurrence of `c` in `s`, if there is one.
pub open spec fn rfind(s: Seq<u8>, c: u8) -> Option<int>
    decreases s.len(),
{
    if s.len() == 0 {
        None
    } else if s[s.len() - 1] == c {
        Some(s.len() - 1)
    } else {
        rfind(s.drop_last(), c)
    }
}

/// Scans `v` backwards, down to (and excluding) `start`, for the byte `c`.
/// The result is the position of the last occurrence of `c` in the suffix
/// of `v` that begins at `start`.
pub fn rfind_byte_from(v: &Vec<u8>, c: u8, start: usize) -> (r: Option<usize>)
    requires
        start <= v@.len(),
    ensures
        match r {
            Some(i) => start <= i < v@.len() && rfind(v@.skip(start as int), c) == Some(
                i - start,
            ),
            None => rfind(v@.skip(start as int), c) is None,
        },
{
    let ghost sub = v@.skip(start as int);
    proof {
        assert(sub.take(v@.len() - start) =~= sub);
    }
    let mut i: usize = v.len();
    while i > start
        invariant
            start <= i <= v@.len(),
            sub == v@.skip(start as int),
            rfind(sub, c) == rfind(sub.take(i - start), c),
        decreases i,
    {
        let ghost k = i - start;
        proof {
            assert(sub.take(k).len() == k);
            assert(sub.take(k)[k - 1] == v@[i - 1]);
        }
        if v[i - 1] == c {
            return Some(i - 1);
        }
        proof {
            assert(sub.take(k).drop_last() =~= sub.take(k - 1));
        }
        i = i - 1;
    }
    proof {
        assert(sub.take(0).len() == 0);
    }
    None
}

/// A fresh vector holding the same bytes as `src`.
pub fn copy_bytes(src: &Vec<u8>) -> (r: Vec<u8>)
    ensures
        r@ == src@,
{
    let mut r: Vec<u8> = Vec::new();
    push_range(&mut r, src, 0, src.len());
    proof {
        assert(src@.subrange(0, src@.len() as int) =~= src@);
        assert(r@ =~= src@);
    }
    r
}

/// Appends the bytes `src[from..to]` to `out`.
pub fn push_range(out: &mut Vec<u8>, src: &Vec<u8>, from: usize, to: usize)
    requires
        from <= to <= src@.len(),
    ensures
        final(out)@ == old(out)@ + src@.subrange(from as int, to as int),
{
    let mut i: usize = from;
    while i < to
        invariant
            from <= i <= to <= src@.len(),
            out@ == old(out)@ + src@.subrange(from as int, i as int),
        decreases to - i,
    {
        out.push(src[i]);
        proof {
            assert(src@.subrange(from as int, i + 1) =~= src@.subrange(from as int, i as int).push(
                src@[i as int],
            ));
        }
        i = i + 1;
    }
}

} // verus!
