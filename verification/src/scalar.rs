//! Big-endian byte arithmetic for 32-byte secret scalars, and the check
//! that a scalar lies strictly inside the curve's valid range: never zero,
//! never at or above the group order.

use vstd::prelude::*;

verus! {

/// The value of a byte string read as a big-endian unsigned integer.
pub open spec fn be_val(bytes: Seq<u8>) -> int
    decreases bytes.len(),
{
    if bytes.len() == 0 {
        0
    } else {
        be_val(bytes.drop_last()) * 256 + bytes.last()
    }
}

/// 256 raised to `n`: the weight of the byte above the low `n` bytes.
pub open spec fn byte_weight(n: nat) -> int
    decreases n,
{
    if n == 0 {
        1
    } else {
        256 * byte_weight((n - 1) as nat)
    }
}

/// Every byte weight is positive.
pub proof fn lemma_byte_weight_pos(n: nat)
    ensures
        byte_weight(n) >= 1,
    decreases n,
{
    if n > 0 {
        lemma_byte_weight_pos((n - 1) as nat);
    }
}

/// Byte weights grow with the byte count.
pub proof fn lemma_byte_weight_mono(i: nat, j: nat)
    requires
        i <= j,
    ensures
        byte_weight(i) <= byte_weight(j),
    decreases j,
{
    if i < j {
        lemma_byte_weight_mono(i, (j - 1) as nat);
        lemma_byte_weight_pos((j - 1) as nat);
    }
}

/// The weights of fifteen and sixteen bytes, written out.
pub proof fn lemma_byte_weight_16()
    ensures
        byte_weight(15) == 0x1_000000_00000000_00000000_00000000int,
        byte_weight(16) == 0x1_00000000_00000000_00000000_00000000int,
{
    reveal_with_fuel(byte_weight, 17);
    assert(byte_weight(0) == 1);
    assert(byte_weight(1) == 256 * byte_weight(0));
    assert(byte_weight(2) == 256 * byte_weight(1));
    assert(byte_weight(3) == 256 * byte_weight(2));
    assert(byte_weight(4) == 256 * byte_weight(3));
    assert(byte_weight(5) == 256 * byte_weight(4));
    assert(byte_weight(6) == 256 * byte_weight(5));
    assert(byte_weight(7) == 256 * byte_weight(6));
    assert(byte_weight(8) == 256 * byte_weight(7));
    assert(byte_weight(9) == 256 * byte_weight(8));
    assert(byte_weight(10) == 256 * byte_weight(9));
    assert(byte_weight(11) == 256 * byte_weight(10));
    assert(byte_weight(12) == 256 * byte_weight(11));
    assert(byte_weight(13) == 256 * byte_weight(12));
    assert(byte_weight(14) == 256 * byte_weight(13));
    assert(byte_weight(15) == 256 * byte_weight(14));
    assert(byte_weight(16) == 256 * byte_weight(15));
}

/// A string of `n` bytes reads below `256^n`.
pub proof fn lemma_be_val_bound(bytes: Seq<u8>)
    ensures
        be_val(bytes) < byte_weight(bytes.len()),
    decreases bytes.len(),
{
    if bytes.len() > 0 {
        let prefix = bytes.drop_last();
        lemma_be_val_bound(prefix);
        let w: int = byte_weight(prefix.len());
        assert(be_val(prefix) * 256 + bytes.last() < w * 256) by (nonlinear_arith)
            requires
                be_val(prefix) < w,
                bytes.last() < 256,
        ;
    }
}

/// Splitting a byte string splits its value: the high part is weighted by
/// the low part's length.
pub proof fn lemma_be_val_split(a: Seq<u8>, b: Seq<u8>)
    ensures
        be_val(a + b) == be_val(a) * byte_weight(b.len()) + be_val(b),
    decreases b.len(),
{
    if b.len() == 0 {
        assert(a + b =~= a);
        assert(byte_weight(0) == 1);
        assert(be_val(b) == 0);
        assert(be_val(a) * byte_weight(b.len()) == be_val(a)) by (nonlinear_arith)
            requires
                byte_weight(b.len()) == 1,
        ;
    } else {
        let c = b.drop_last();
        lemma_be_val_split(a, c);
        assert((a + b).drop_last() =~= a + c);
        assert((a + b).last() == b.last());
        let x: int = be_val(a) as int;
        let y: int = be_val(c) as int;
        let z: int = b.last() as int;
        let w: int = byte_weight(c.len()) as int;
        assert(be_val(a + c) == x * w + y);
        assert(be_val(b) == y * 256 + z);
        assert(be_val(a + b) == (x * w + y) * 256 + z);
        assert(byte_weight(b.len()) == 256 * w);
        assert((x * w + y) * 256 + z == x * (256 * w) + (y * 256 + z)) by (nonlinear_arith);
        assert(x * (256 * w) == x * byte_weight(b.len())) by (nonlinear_arith)
            requires
                byte_weight(b.len()) == 256 * w,
        ;
    }
}

/// Reads sixteen bytes of `bytes`, starting at `start`, as one big-endian
/// 128-bit value.
pub fn be_u128_at(bytes: &Vec<u8>, start: usize) -> (r: u128)
    requires
        start + 16 <= bytes@.len(),
    ensures
        r == be_val(bytes@.subrange(start as int, start as int + 16)),
{
    let total = bytes.len();
    let mut acc: u128 = 0;
    let mut i: usize = 0;
    proof {
        assert(bytes@.subrange(start as int, start as int) =~= Seq::<u8>::empty());
    }
    while i < 16
        invariant
            0 <= i <= 16,
            total == bytes@.len(),
            start + 16 <= total,
            acc == be_val(bytes@.subrange(start as int, start as int + i)),
            acc < byte_weight(i as nat),
        decreases 16 - i,
    {
        proof {
            lemma_byte_weight_mono(i as nat, 15);
            lemma_byte_weight_16();
            let taken = bytes@.subrange(start as int, start as int + i + 1);
            assert(taken.drop_last() =~= bytes@.subrange(start as int, start as int + i));
            assert(taken.last() == bytes@[start as int + i]);
        }
        acc = acc * 256 + (bytes[start + i] as u128);
        i = i + 1;
    }
    proof {
        assert(bytes@.subrange(start as int, start as int + 16) =~= bytes@.subrange(
            start as int,
            start as int + i,
        ));
    }
    acc
}

/// The high sixteen bytes of the secp256k1 group order.
pub const CURVE_ORDER_HIGH: u128 = 0xFFFFFFFF_FFFFFFFF_FFFFFFFF_FFFFFFFE;

/// The low sixteen bytes of the secp256k1 group order.
pub const CURVE_ORDER_LOW: u128 = 0xBAAEDCE6_AF48A03B_BFD25E8C_D0364141;

/// The order of the secp256k1 group: the number of valid secret scalars
/// plus one, since zero is excluded.
pub open spec fn curve_order() -> int {
    (CURVE_ORDER_HIGH as int) * 0x1_00000000_00000000_00000000_00000000int
        + (CURVE_ORDER_LOW as int)
}

/// Whether 32 bytes, read big-endian, form a valid secret scalar: nonzero
/// and strictly below the curve order.
pub open spec fn valid_scalar(bytes: Seq<u8>) -> bool {
    bytes.len() == 32 && 0 < be_val(bytes) && be_val(bytes) < curve_order()
}

/// Checks a 32-byte secret scalar against the curve's valid range, by
/// comparing its two 128-bit halves against the order's halves.
pub fn scalar_in_range(bytes: &Vec<u8>) -> (r: bool)
    requires
        bytes@.len() == 32,
    ensures
        r == valid_scalar(bytes@),
{
    let hi = be_u128_at(bytes, 0);
    let lo = be_u128_at(bytes, 16);
    proof {
        let high_half = bytes@.subrange(0, 16);
        let low_half = bytes@.subrange(16, 32);
        assert(high_half + low_half =~= bytes@);
        lemma_be_val_split(high_half, low_half);
        lemma_byte_weight_16();
        lemma_be_val_bound(low_half);
        let p: int = 0x1_00000000_00000000_00000000_00000000int;
        assert(be_val(bytes@) == hi * p + lo);
        assert(hi * p + lo == 0 <==> (hi == 0 && lo == 0)) by (nonlinear_arith)
            requires
                0 <= hi,
                0 <= lo < p,
                p > 0,
        ;
        assert(hi * p + lo < CURVE_ORDER_HIGH * p + CURVE_ORDER_LOW <==> (hi < CURVE_ORDER_HIGH
            || (hi == CURVE_ORDER_HIGH && lo < CURVE_ORDER_LOW))) by (nonlinear_arith)
            requires
                0 <= hi,
                0 <= lo < p,
                0 < CURVE_ORDER_LOW < p,
                0 < CURVE_ORDER_HIGH,
        ;
    }
    let nonzero = hi != 0 || lo != 0;
    let below_order = hi < CURVE_ORDER_HIGH || (hi == CURVE_ORDER_HIGH && lo < CURVE_ORDER_LOW);
    nonzero && below_order
}

} // verus!
