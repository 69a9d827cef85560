//! Byte-level content changes made by `write`, `setattr` and `read`.
use vstd::prelude::*;

verus! {

/// Content after writing `d` at offset `k` into `c`.
/// At offset 0 the content becomes `d`; past the end the gap is zero-filled;
/// otherwise `d` overlays `c` from `k` and extends it where needed.
pub open spec fn written(c: Seq<u8>, k: nat, d: Seq<u8>) -> Seq<u8> {
    if k == 0 {
        d
    } else {
        let n: int = if c.len() > k + d.len() {
            c.len() as int
        } else {
            (k + d.len()) as int
        };
        Seq::new(
            n as nat,
            |j: int|
                if j < k {
                    if j < c.len() {
                        c[j]
                    } else {
                        0u8
                    }
                } else if j < k + d.len() {
                    d[j - k]
                } else {
                    c[j]
                },
        )
    }
}

/// Content truncated or zero-extended to `n` bytes.
pub open spec fn resized(c: Seq<u8>, n: nat) -> Seq<u8> {
    Seq::new(n, |j: int| if j < c.len() { c[j] } else { 0u8 })
}

/// What a read at offset `k` returns: the tail from `k`, or nothing past the end.
pub open spec fn tail_from(c: Seq<u8>, k: nat) -> Seq<u8> {
    if k < c.len() {
        c.subrange(k as int, c.len() as int)
    } else {
        Seq::empty()
    }
}

/// New content after writing `data` at `offset`.
pub fn apply_write(content: &[u8], offset: usize, data: &[u8]) -> (r: Vec<u8>)
    requires
        offset + data@.len() <= usize::MAX,
    ensures
        r@ == written(content@, offset as nat, data@),
{
    let clen = content.len();
    let dlen = data.len();
    let end = offset + dlen;
    let n = if offset == 0 {
        dlen
    } else if clen > end {
        clen
    } else {
        end
    };
    let ghost target = written(content@, offset as nat, data@);
    let mut r: Vec<u8> = Vec::new();
    let mut j: usize = 0;
    while j < n
        invariant
            clen == content@.len(),
            dlen == data@.len(),
            end == offset + dlen,
            target == written(content@, offset as nat, data@),
            n == target.len(),
            j <= n,
            r@ == target.subrange(0, j as int),
        decreases n - j,
    {
        let b: u8 = if offset == 0 {
            data[j]
        } else if j < offset {
            if j < clen {
                content[j]
            } else {
                0u8
            }
        } else if j < end {
            data[j - offset]
        } else {
            content[j]
        };
        r.push(b);
        j = j + 1;
        assert(r@ =~= target.subrange(0, j as int));
    }
    assert(r@ =~= target);
    r
}

/// Content truncated or zero-extended to `size` bytes.
pub fn resize_content(content: &[u8], size: usize) -> (r: Vec<u8>)
    ensures
        r@ == resized(content@, size as nat),
{
    let clen = content.len();
    let ghost target = resized(content@, size as nat);
    let mut r: Vec<u8> = Vec::new();
    let mut j: usize = 0;
    while j < size
        invariant
            clen == content@.len(),
            target == resized(content@, size as nat),
            j <= size,
            r@ == target.subrange(0, j as int),
        decreases size - j,
    {
        let b: u8 = if j < clen {
            content[j]
        } else {
            0u8
        };
        r.push(b);
        j = j + 1;
        assert(r@ =~= target.subrange(0, j as int));
    }
    assert(r@ =~= target);
    r
}

/// The bytes a read at `offset` returns.
pub fn read_tail(content: &[u8], offset: usize) -> (r: Vec<u8>)
    ensures
        r@ == tail_from(content@, offset as nat),
{
    let clen = content.len();
    let mut r: Vec<u8> = Vec::new();
    if offset >= clen {
        return r;
    }
    let mut j: usize = offset;
    while j < clen
        invariant
            clen == content@.len(),
            offset <= j <= clen,
            r@ == content@.subrange(offset as int, j as int),
        decreases clen - j,
    {
        r.push(content[j]);
        j = j + 1;
        assert(r@ =~= content@.subrange(offset as int, j as int));
    }
    r
}

/// Reading from offset 0 right after writing `d` at offset 0 gives back exactly `d`.
pub proof fn lemma_write_at_zero_reads_back(c: Seq<u8>, d: Seq<u8>)
    ensures
        tail_from(written(c, 0, d), 0) == d,
{
    if d.len() > 0 {
        assert(d.subrange(0, d.len() as int) =~= d);
    }
}

/// Writing `d` at an offset `k` past the end of `c` gives content of length
/// `k + |d|`, zeros on `[|c|, k)` and `d` on `[k, k + |d|)`; `c` itself is kept.
pub proof fn lemma_write_past_end(c: Seq<u8>, k: nat, d: Seq<u8>)
    requires
        k > c.len(),
    ensures
        written(c, k, d).len() == k + d.len(),
        forall|j: int| 0 <= j < c.len() ==> #[trigger] written(c, k, d)[j] == c[j],
        forall|j: int| c.len() <= j < k ==> #[trigger] written(c, k, d)[j] == 0u8,
        forall|j: int| k <= j < k + d.len() ==> #[trigger] written(c, k, d)[j] == d[j - k],
{
}

} // verus!
