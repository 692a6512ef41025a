//! Little-endian numbers in byte strings.

use vstd::prelude::*;

verus! {

/// 256 to the power `k`.
pub open spec fn pow256(k: nat) -> nat
    decreases k,
{
    if k == 0 {
        1
    } else {
        256 * pow256((k - 1) as nat)
    }
}

/// The `width` low bytes of `x`, the lowest first.
pub open spec fn le_bytes(x: nat, width: nat) -> Seq<u8>
    decreases width,
{
    if width == 0 {
        Seq::empty()
    } else {
        seq![(x % 256) as u8] + le_bytes(x / 256, (width - 1) as nat)
    }
}

/// The number whose little-endian bytes are `bytes`.
pub open spec fn le_value(bytes: Seq<u8>) -> nat
    decreases bytes.len(),
{
    if bytes.len() == 0 {
        0
    } else {
        bytes[0] as nat + 256 * le_value(bytes.skip(1))
    }
}

/// `le_bytes` gives as many bytes as asked for.
pub proof fn lemma_le_bytes_len(x: nat, width: nat)
    ensures
        le_bytes(x, width).len() == width,
    decreases width,
{
    if width > 0 {
        lemma_le_bytes_len(x / 256, (width - 1) as nat);
    }
}

/// Reading back what was written gives the number, where it fits the width.
pub proof fn lemma_le_round_trip(x: nat, width: nat)
    requires
        x < pow256(width),
    ensures
        le_value(le_bytes(x, width)) == x,
    decreases width,
{
    if width > 0 {
        let rest = le_bytes(x / 256, (width - 1) as nat);
        let all = le_bytes(x, width);
        assert(pow256(width) == 256 * pow256((width - 1) as nat));
        assert(x / 256 < pow256((width - 1) as nat));
        lemma_le_round_trip(x / 256, (width - 1) as nat);
        lemma_le_bytes_len(x / 256, (width - 1) as nat);
        assert(all.skip(1) =~= rest);
        assert(all[0] == (x % 256) as u8);
    }
}

/// 256 to the powers up to 16.
pub proof fn lemma_pow256_values()
    ensures
        pow256(0) == 1,
        pow256(8) == 0x1_0000_0000_0000_0000,
        pow256(16) == 0x1_0000_0000_0000_0000_0000_0000_0000_0000int,
        forall|k: nat| k < 16 ==> 256 * #[trigger] pow256(k) <= pow256(16),
{
    reveal_with_fuel(pow256, 17);
    assert forall|k: nat| k < 16 implies 256 * #[trigger] pow256(k) <= pow256(16) by {
        if k == 0 {
        } else if k == 1 {
        } else if k == 2 {
        } else if k == 3 {
        } else if k == 4 {
        } else if k == 5 {
        } else if k == 6 {
        } else if k == 7 {
        } else if k == 8 {
        } else if k == 9 {
        } else if k == 10 {
        } else if k == 11 {
        } else if k == 12 {
        } else if k == 13 {
        } else if k == 14 {
        } else {
            assert(k == 15);
        }
    }
}

/// Appends the `width` low bytes of `x` to `out`, the lowest first.
pub fn push_le(out: &mut Vec<u8>, x: u128, width: usize)
    ensures
        final(out)@ == old(out)@ + le_bytes(x as nat, width as nat),
        final(out)@.len() == old(out)@.len() + width,
{
    let mut rest: u128 = x;
    let mut i: usize = 0;
    proof {
        lemma_le_bytes_len(x as nat, width as nat);
    }
    while i < width
        invariant
            i <= width,
            out@ + le_bytes(rest as nat, (width - i) as nat) == old(out)@ + le_bytes(
                x as nat,
                width as nat,
            ),
        decreases width - i,
    {
        let ghost before = out@;
        let byte: u8 = (rest % 256) as u8;
        out.push(byte);
        proof {
            let tail = le_bytes((rest / 256) as nat, (width - i - 1) as nat);
            assert(le_bytes(rest as nat, (width - i) as nat) == seq![byte] + tail);
            assert(before.push(byte) + tail =~= before + (seq![byte] + tail));
        }
        rest = rest / 256;
        i += 1;
    }
    assert(le_bytes(rest as nat, 0) =~= Seq::<u8>::empty());
    assert(out@ =~= out@ + Seq::<u8>::empty());
}

/// Reads the 16 bytes of `data` from `offset` on as a little-endian number,
/// where `data` holds that many.
pub fn read_le_u128(data: &Vec<u8>, offset: usize) -> (read: Option<u128>)
    ensures
        read is Some <==> offset + 16 <= data@.len(),
        read matches Some(value) ==> value == le_value(
            data@.subrange(offset as int, offset + 16),
        ),
{
    if data.len() < 16 || offset > data.len() - 16 {
        return None;
    }
    let mut value: u128 = 0;
    let mut i: usize = 16;
    let len: usize = data.len();
    proof {
        lemma_pow256_values();
        assert(data@.subrange(offset + 16, offset + 16) =~= Seq::<u8>::empty());
    }
    while i > 0
        invariant
            i <= 16,
            len == data@.len(),
            offset + 16 <= len,
            value == le_value(data@.subrange(offset + i, offset + 16)),
            value < pow256((16 - i) as nat),
            pow256(16) == 0x1_0000_0000_0000_0000_0000_0000_0000_0000int,
            forall|k: nat| k < 16 ==> 256 * #[trigger] pow256(k) <= pow256(16),
        decreases i,
    {
        i -= 1;
        let byte: u8 = data[offset + i];
        proof {
            let s = data@.subrange(offset + i, offset + 16);
            assert(s.skip(1) =~= data@.subrange(offset + i + 1, offset + 16));
            assert(s[0] == byte);
            assert(le_value(s) == byte as nat + 256 * value);
            assert(256 * pow256((15 - i) as nat) <= pow256(16));
            assert(pow256((16 - i) as nat) == 256 * pow256((15 - i) as nat));
        }
        value = value * 256 + byte as u128;
    }
    Some(value)
}

} // verus!
