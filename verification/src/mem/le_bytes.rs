//! Little-endian encoding of integers into bytes and the byte-level
//! operations on which guest memory is built.
use vstd::prelude::*;

verus! {

/// `256` to the power `n`.
pub open spec fn pow256(n: nat) -> nat
    decreases n,
{
    if n == 0 {
        1
    } else {
        256 * pow256((n - 1) as nat)
    }
}

/// The unsigned value of the little-endian bytes `s`.
pub open spec fn le_decode(s: Seq<u8>) -> nat
    decreases s.len(),
{
    if s.len() == 0 {
        0
    } else {
        s[0] as nat + 256 * le_decode(s.drop_first())
    }
}

/// The `n` low bytes of `v`, least significant first.
pub open spec fn le_encode(v: nat, n: nat) -> Seq<u8>
    decreases n,
{
    if n == 0 {
        Seq::empty()
    } else {
        seq![(v % 256) as u8] + le_encode(v / 256, (n - 1) as nat)
    }
}

/// `s` with the bytes starting at `off` replaced by `bytes`.
pub open spec fn update_bytes(s: Seq<u8>, off: int, bytes: Seq<u8>) -> Seq<u8> {
    s.subrange(0, off) + bytes + s.subrange(off + bytes.len(), s.len() as int)
}

pub proof fn lemma_update_bytes_len(s: Seq<u8>, off: int, bytes: Seq<u8>)
    requires
        0 <= off,
        off + bytes.len() <= s.len(),
    ensures
        update_bytes(s, off, bytes).len() == s.len(),
        update_bytes(s, off, bytes).subrange(off, off + bytes.len()) == bytes,
        forall|j: int|
            0 <= j < s.len() && !(off <= j < off + bytes.len()) ==> #[trigger] update_bytes(
                s,
                off,
                bytes,
            )[j] == s[j],
{
    assert(update_bytes(s, off, bytes).subrange(off, off + bytes.len()) =~= bytes);
}

/// The memory `m` after the writes `ws`, each an offset and the bytes
/// written there, applied in order.
pub open spec fn apply_writes(m: Seq<u8>, ws: Seq<(int, Seq<u8>)>) -> Seq<u8>
    decreases ws.len(),
{
    if ws.len() == 0 {
        m
    } else {
        update_bytes(apply_writes(m, ws.drop_last()), ws.last().0, ws.last().1)
    }
}

/// Every write of `ws` fits in memory of length `len`.
pub open spec fn writes_in_bounds(ws: Seq<(int, Seq<u8>)>, len: int) -> bool {
    forall|i: int| 0 <= i < ws.len() ==> 0 <= #[trigger] ws[i].0 && ws[i].0 + ws[i].1.len() <= len
}

/// No two writes of `ws` touch the same byte.
pub open spec fn writes_disjoint(ws: Seq<(int, Seq<u8>)>) -> bool {
    forall|i: int, k: int|
        0 <= i < ws.len() && 0 <= k < ws.len() && i != k ==> #[trigger] ws[i].0 + ws[i].1.len()
            <= #[trigger] ws[k].0 || ws[k].0 + ws[k].1.len() <= ws[i].0
}

/// Whether byte `j` is touched by one of the writes `ws`.
pub open spec fn written_by(ws: Seq<(int, Seq<u8>)>, j: int) -> bool {
    exists|i: int| 0 <= i < ws.len() && #[trigger] ws[i].0 <= j < ws[i].0 + ws[i].1.len()
}

/// After disjoint writes that fit, each write's bytes can be read back where
/// it was written, and every byte that no write touched is unchanged.
pub proof fn lemma_apply_writes(m: Seq<u8>, ws: Seq<(int, Seq<u8>)>)
    requires
        writes_in_bounds(ws, m.len() as int),
        writes_disjoint(ws),
    ensures
        apply_writes(m, ws).len() == m.len(),
        forall|i: int|
            0 <= i < ws.len() ==> #[trigger] apply_writes(m, ws).subrange(
                ws[i].0,
                ws[i].0 + ws[i].1.len(),
            ) == ws[i].1,
        forall|j: int|
            0 <= j < m.len() && !written_by(ws, j) ==> #[trigger] apply_writes(m, ws)[j] == m[j],
    decreases ws.len(),
{
    if ws.len() > 0 {
        let prev = ws.drop_last();
        assert forall|i: int| 0 <= i < prev.len() implies 0 <= #[trigger] prev[i].0 && prev[i].0
            + prev[i].1.len() <= m.len() by {
            assert(prev[i] == ws[i]);
        }
        assert forall|i: int, k: int|
            0 <= i < prev.len() && 0 <= k < prev.len() && i != k implies #[trigger] prev[i].0
            + prev[i].1.len() <= #[trigger] prev[k].0 || prev[k].0 + prev[k].1.len()
            <= prev[i].0 by {
            assert(prev[i] == ws[i]);
            assert(prev[k] == ws[k]);
        }
        lemma_apply_writes(m, prev);
        let pm = apply_writes(m, prev);
        let last = ws.last();
        let n = ws.len() - 1;
        assert(ws[n] == last);
        lemma_update_bytes_len(pm, last.0, last.1);
        let am = apply_writes(m, ws);
        assert forall|i: int| 0 <= i < ws.len() implies #[trigger] am.subrange(
            ws[i].0,
            ws[i].0 + ws[i].1.len(),
        ) == ws[i].1 by {
            if i < n {
                assert(prev[i] == ws[i]);
                assert(ws[i].0 + ws[i].1.len() <= ws[n].0 || ws[n].0 + ws[n].1.len() <= ws[i].0);
                assert(am.subrange(ws[i].0, ws[i].0 + ws[i].1.len()) =~= pm.subrange(
                    ws[i].0,
                    ws[i].0 + ws[i].1.len(),
                ));
            }
        }
        assert forall|j: int| 0 <= j < m.len() && !written_by(ws, j) implies #[trigger] am[j]
            == m[j] by {
            assert(!(ws[n].0 <= j < ws[n].0 + ws[n].1.len()));
            if written_by(prev, j) {
                let i = choose|i: int|
                    0 <= i < prev.len() && #[trigger] prev[i].0 <= j < prev[i].0 + prev[i].1.len();
                assert(prev[i] == ws[i]);
            }
        }
    }
}

/// Writes that fit keep the length of memory, and leave every byte that no
/// write touched as it was, whether or not they overlap.
pub proof fn lemma_apply_writes_frame(m: Seq<u8>, ws: Seq<(int, Seq<u8>)>)
    requires
        writes_in_bounds(ws, m.len() as int),
    ensures
        apply_writes(m, ws).len() == m.len(),
        forall|j: int|
            0 <= j < m.len() && !written_by(ws, j) ==> #[trigger] apply_writes(m, ws)[j] == m[j],
    decreases ws.len(),
{
    if ws.len() > 0 {
        let prev = ws.drop_last();
        assert forall|i: int| 0 <= i < prev.len() implies 0 <= #[trigger] prev[i].0 && prev[i].0
            + prev[i].1.len() <= m.len() by {
            assert(prev[i] == ws[i]);
        }
        lemma_apply_writes_frame(m, prev);
        let pm = apply_writes(m, prev);
        let n = ws.len() - 1;
        assert(ws[n] == ws.last());
        lemma_update_bytes_len(pm, ws.last().0, ws.last().1);
        assert forall|j: int| 0 <= j < m.len() && !written_by(ws, j) implies #[trigger] apply_writes(
            m,
            ws,
        )[j] == m[j] by {
            assert(!(ws[n].0 <= j < ws[n].0 + ws[n].1.len()));
            if written_by(prev, j) {
                let i = choose|i: int|
                    0 <= i < prev.len() && #[trigger] prev[i].0 <= j < prev[i].0 + prev[i].1.len();
                assert(prev[i] == ws[i]);
            }
        }
    }
}

/// A write that fits, and that no later write of `ws` overlaps, can be read
/// back after all of them.
pub proof fn lemma_apply_writes_read_back(m: Seq<u8>, ws: Seq<(int, Seq<u8>)>, i: int)
    requires
        writes_in_bounds(ws, m.len() as int),
        0 <= i < ws.len(),
        forall|k: int|
            i < k < ws.len() ==> #[trigger] ws[k].0 + ws[k].1.len() <= ws[i].0 || ws[i].0
                + ws[i].1.len() <= ws[k].0,
    ensures
        apply_writes(m, ws).subrange(ws[i].0, ws[i].0 + ws[i].1.len()) == ws[i].1,
    decreases ws.len(),
{
    let prev = ws.drop_last();
    assert forall|k: int| 0 <= k < prev.len() implies 0 <= #[trigger] prev[k].0 && prev[k].0
        + prev[k].1.len() <= m.len() by {
        assert(prev[k] == ws[k]);
    }
    lemma_apply_writes_frame(m, prev);
    let pm = apply_writes(m, prev);
    let n = ws.len() - 1;
    assert(ws[n] == ws.last());
    lemma_update_bytes_len(pm, ws.last().0, ws.last().1);
    if i < n {
        assert forall|k: int| i < k < prev.len() implies #[trigger] prev[k].0 + prev[k].1.len()
            <= prev[i].0 || prev[i].0 + prev[i].1.len() <= prev[k].0 by {
            assert(prev[k] == ws[k]);
        }
        lemma_apply_writes_read_back(m, prev, i);
        assert(prev[i] == ws[i]);
        assert(ws[n].0 + ws[n].1.len() <= ws[i].0 || ws[i].0 + ws[i].1.len() <= ws[n].0);
        assert(apply_writes(m, ws).subrange(ws[i].0, ws[i].0 + ws[i].1.len()) =~= pm.subrange(
            ws[i].0,
            ws[i].0 + ws[i].1.len(),
        ));
    }
}

/// A sequence of `n` zero bytes.
pub open spec fn zeros(n: nat) -> Seq<u8> {
    Seq::new(n, |i: int| 0u8)
}

/// A sequence of `n` copies of `b`.
pub open spec fn repeat_byte(b: u8, n: nat) -> Seq<u8> {
    Seq::new(n, |i: int| b)
}

pub proof fn lemma_pow256_values()
    ensures
        pow256(0) == 1,
        pow256(1) == 0x100,
        pow256(2) == 0x1_0000,
        pow256(4) == 0x1_0000_0000,
        pow256(8) == 0x1_0000_0000_0000_0000,
{
    reveal_with_fuel(pow256, 9);
}

pub proof fn lemma_pow256_monotone(a: nat, b: nat)
    requires
        a <= b,
    ensures
        pow256(a) <= pow256(b),
        pow256(a) >= 1,
    decreases b,
{
    if b > a {
        lemma_pow256_monotone(a, (b - 1) as nat);
    } else if a > 0 {
        lemma_pow256_monotone((a - 1) as nat, (a - 1) as nat);
    }
}

/// The value of `n` bytes is below `256^n`.
pub proof fn lemma_le_decode_bound(s: Seq<u8>)
    ensures
        le_decode(s) < pow256(s.len()),
    decreases s.len(),
{
    if s.len() > 0 {
        lemma_le_decode_bound(s.drop_first());
    }
}

pub proof fn lemma_le_encode_len(v: nat, n: nat)
    ensures
        le_encode(v, n).len() == n,
    decreases n,
{
    if n > 0 {
        lemma_le_encode_len(v / 256, (n - 1) as nat);
    }
}

/// Decoding the encoding of a value that fits in `n` bytes gives the value back.
pub proof fn lemma_decode_encode(v: nat, n: nat)
    requires
        v < pow256(n),
    ensures
        le_decode(le_encode(v, n)) == v,
        le_encode(v, n).len() == n,
    decreases n,
{
    lemma_le_encode_len(v, n);
    if n > 0 {
        let rest = le_encode(v / 256, (n - 1) as nat);
        assert(v / 256 < pow256((n - 1) as nat));
        lemma_decode_encode(v / 256, (n - 1) as nat);
        assert(le_encode(v, n).drop_first() =~= rest);
    }
}

/// Encoding the value of some bytes gives the bytes back.
pub proof fn lemma_encode_decode(s: Seq<u8>)
    ensures
        le_encode(le_decode(s), s.len()) == s,
    decreases s.len(),
{
    if s.len() > 0 {
        let d = le_decode(s);
        let rest = s.drop_first();
        lemma_encode_decode(rest);
        assert(d % 256 == s[0] as nat);
        assert(d / 256 == le_decode(rest));
        assert(le_encode(d, s.len()) =~= s);
    }
}

/// Read the unsigned little-endian value of `n <= 8` bytes of `data` at `offset`.
pub fn read_le(data: &[u8], offset: usize, n: usize) -> (r: u64)
    requires
        n <= 8,
        offset + n <= data@.len(),
    ensures
        r == le_decode(data@.subrange(offset as int, offset + n)),
{
    let dlen = data.len();
    let mut acc: u64 = 0;
    let mut i: usize = n;
    proof {
        lemma_pow256_values();
        assert(data@.subrange(offset + n, offset + n) =~= Seq::<u8>::empty());
    }
    while i > 0
        invariant
            i <= n <= 8,
            offset + n <= data@.len(),
            dlen == data@.len(),
            acc == le_decode(data@.subrange(offset + i, offset + n)),
            acc < pow256((n - i) as nat),
        decreases i,
    {
        let ghost old_acc = acc;
        i = i - 1;
        proof {
            lemma_pow256_monotone((n - i - 1) as nat, 7);
            reveal_with_fuel(pow256, 8);
            let s = data@.subrange(offset + i, offset + n);
            assert(s.drop_first() =~= data@.subrange(offset + i + 1, offset + n));
        }
        acc = data[offset + i] as u64 + 256 * acc;
    }
    acc
}

/// The `n` low bytes of `v`, least significant first.
pub fn encode_le(v: u64, n: usize) -> (r: Vec<u8>)
    ensures
        r@ == le_encode(v as nat, n as nat),
        r@.len() == n,
{
    let mut out: Vec<u8> = Vec::new();
    let mut rem: u64 = v;
    let mut i: usize = 0;
    proof {
        lemma_le_encode_len(v as nat, n as nat);
        assert(out@ + le_encode(rem as nat, (n - i) as nat) =~= le_encode(v as nat, n as nat));
    }
    while i < n
        invariant
            i <= n,
            out@ + le_encode(rem as nat, (n - i) as nat) == le_encode(v as nat, n as nat),
            out@.len() == i,
        decreases n - i,
    {
        let b = (rem % 256) as u8;
        proof {
            let tail = le_encode(rem as nat, (n - i) as nat);
            assert(tail == seq![b] + le_encode((rem / 256) as nat, (n - i - 1) as nat));
            assert(out@.push(b) + le_encode((rem / 256) as nat, (n - i - 1) as nat) =~= out@
                + tail);
        }
        out.push(b);
        rem = rem / 256;
        i = i + 1;
    }
    proof {
        assert(le_encode(rem as nat, 0) =~= Seq::<u8>::empty());
        assert(out@ =~= out@ + le_encode(rem as nat, 0));
    }
    out
}

/// Copy `bytes` into `data` starting at `offset`.
pub fn write_bytes(data: &mut Vec<u8>, offset: usize, bytes: &[u8])
    requires
        offset + bytes@.len() <= old(data)@.len(),
    ensures
        final(data)@ == update_bytes(old(data)@, offset as int, bytes@),
{
    let dlen = data.len();
    let mut i: usize = 0;
    while i < bytes.len()
        invariant
            offset + bytes@.len() <= data@.len(),
            dlen == data@.len(),
            data@.len() == old(data)@.len(),
            i <= bytes@.len(),
            forall|j: int|
                0 <= j < data@.len() ==> #[trigger] data@[j] == (if offset <= j < offset + i {
                    bytes@[j - offset]
                } else {
                    old(data)@[j]
                }),
        decreases bytes@.len() - i,
    {
        data.set(offset + i, bytes[i]);
        i = i + 1;
    }
    assert(data@ =~= update_bytes(old(data)@, offset as int, bytes@));
}

/// Set `len` bytes of `data` starting at `offset` to `value`.
pub fn fill_bytes(data: &mut Vec<u8>, value: u8, offset: usize, len: usize)
    requires
        offset + len <= old(data)@.len(),
    ensures
        final(data)@ == update_bytes(old(data)@, offset as int, repeat_byte(value, len as nat)),
{
    let dlen = data.len();
    let mut i: usize = 0;
    while i < len
        invariant
            offset + len <= data@.len(),
            dlen == data@.len(),
            data@.len() == old(data)@.len(),
            i <= len,
            forall|j: int|
                0 <= j < data@.len() ==> #[trigger] data@[j] == (if offset <= j < offset + i {
                    value
                } else {
                    old(data)@[j]
                }),
        decreases len - i,
    {
        data.set(offset + i, value);
        i = i + 1;
    }
    assert(data@ =~= update_bytes(old(data)@, offset as int, repeat_byte(value, len as nat)));
}

/// Copy `len` bytes of `data` starting at `offset` into `dst`.
pub fn read_bytes_into(data: &Vec<u8>, offset: usize, dst: &mut [u8])
    requires
        offset + old(dst)@.len() <= data@.len(),
    ensures
        final(dst)@ == data@.subrange(offset as int, offset + old(dst)@.len()),
{
    let mut i: usize = 0;
    let n = dst.len();
    let dlen = data.len();
    while i < n
        invariant
            n == dst@.len(),
            dlen == data@.len(),
            n == old(dst)@.len(),
            offset + n <= data@.len(),
            i <= n,
            forall|j: int| 0 <= j < i ==> #[trigger] dst@[j] == data@[offset + j],
        decreases n - i,
    {
        dst[i] = data[offset + i];
        i = i + 1;
    }
    assert(dst@ =~= data@.subrange(offset as int, offset + n));
}

/// A new vector of `n` zero bytes.
pub fn zeroed_vec(n: usize) -> (r: Vec<u8>)
    ensures
        r@ == zeros(n as nat),
{
    let mut v: Vec<u8> = Vec::new();
    let mut i: usize = 0;
    while i < n
        invariant
            i <= n,
            v@ == zeros(i as nat),
        decreases n - i,
    {
        v.push(0u8);
        i = i + 1;
        assert(v@ =~= zeros(i as nat));
    }
    v
}

} // verus!
