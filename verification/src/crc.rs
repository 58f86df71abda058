//! CRC-32/AUTOSAR: width 32, polynomial `0xF4AC_FB13`, init and xorout all ones,
//! reflected input and output (LSB-first, table-free).
use vstd::prelude::*;

verus! {

/// The generator polynomial in normal (MSB-first) form.
pub const CRC_POLY: u32 = 0xF4AC_FB13;

/// The polynomial with its 32 bits in reverse order, as the LSB-first algorithm uses it.
pub const CRC_POLY_REFLECTED: u32 = 0xC8DF_352F;

/// Initial register value.
pub const CRC_INIT: u32 = 0xFFFF_FFFF;

/// Value the final register is XORed with.
pub const CRC_XOROUT: u32 = 0xFFFF_FFFF;

/// Computes the reflected form of [`CRC_POLY`] bit by bit.
pub fn reflect_poly() -> (r: u32)
    ensures
        r == CRC_POLY_REFLECTED,
        forall|j: u32| j < 32 ==> #[trigger] ((r >> j) & 1) == (CRC_POLY >> ((31 - j) as u32)) & 1,
{
    let mut v: u32 = CRC_POLY;
    let mut r: u32 = 0;
    let mut i: u32 = 0;
    assert(CRC_POLY >> 0u32 == CRC_POLY && CRC_POLY_REFLECTED >> 32u32 == 0 && CRC_POLY_REFLECTED >> 0u32 == CRC_POLY_REFLECTED) by (bit_vector);
    while i < 32
        invariant
            i <= 32,
            v == CRC_POLY >> i,
            r == CRC_POLY_REFLECTED >> ((32 - i) as u32),
        decreases 32 - i,
    {
        assert(((CRC_POLY_REFLECTED >> ((32 - i) as u32)) << 1u32) | ((CRC_POLY >> i) & 1u32)
            == CRC_POLY_REFLECTED >> ((31 - i) as u32) && (CRC_POLY >> i) >> 1u32 == CRC_POLY >> ((i + 1) as u32))
            by (bit_vector)
            requires i < 32;
        r = (r << 1) | (v & 1);
        v = v >> 1;
        i = i + 1;
    }
    assert(forall|j: u32| j < 32 ==> #[trigger] ((CRC_POLY_REFLECTED >> j) & 1) == (CRC_POLY >> ((31 - j) as u32)) & 1)
        by (bit_vector);
    r
}


/// One LSB-first shift of the CRC register.
pub open spec fn crc_shift(c: u32) -> u32 {
    if c & 1 != 0 {
        (c >> 1u32) ^ CRC_POLY_REFLECTED
    } else {
        c >> 1u32
    }
}

/// `n` successive register shifts.
pub open spec fn crc_shift_n(c: u32, n: nat) -> u32
    decreases n,
{
    if n == 0 {
        c
    } else {
        crc_shift(crc_shift_n(c, (n - 1) as nat))
    }
}

/// Feeds one input byte into the register.
pub open spec fn crc_byte(c: u32, b: u8) -> u32 {
    crc_shift_n(c ^ (b as u32), 8)
}

/// The register after feeding `data`, in order, starting from `c`.
pub open spec fn crc_register(c: u32, data: Seq<u8>) -> u32
    decreases data.len(),
{
    if data.len() == 0 {
        c
    } else {
        crc_byte(crc_register(c, data.drop_last()), data.last())
    }
}

/// CRC-32/AUTOSAR of `data`.
pub open spec fn crc32_autosar_spec(data: Seq<u8>) -> u32 {
    crc_register(CRC_INIT, data) ^ CRC_XOROUT
}

/// Computes CRC-32/AUTOSAR of `data`.
pub fn crc32_autosar(data: &[u8]) -> (crc: u32)
    ensures
        crc == crc32_autosar_spec(data@),
{
    let rpoly = reflect_poly();
    let mut crc: u32 = CRC_INIT;
    let mut i: usize = 0;
    while i < data.len()
        invariant
            i <= data@.len(),
            rpoly == CRC_POLY_REFLECTED,
            crc == crc_register(CRC_INIT, data@.take(i as int)),
        decreases data@.len() - i,
    {
        let byte = data[i];
        assert(data@.take(i + 1).drop_last() =~= data@.take(i as int));
        let start: u32 = crc ^ (byte as u32);
        crc = start;
        let mut k: u32 = 0;
        while k < 8
            invariant
                k <= 8,
                rpoly == CRC_POLY_REFLECTED,
                crc == crc_shift_n(start, k as nat),
            decreases 8 - k,
        {
            crc = if crc & 1 != 0 { (crc >> 1) ^ rpoly } else { crc >> 1 };
            k = k + 1;
        }
        i = i + 1;
    }
    assert(data@.take(data@.len() as int) =~= data@);
    crc ^ CRC_XOROUT
}

/// A register shift loses no information: distinct registers stay distinct.
pub proof fn lemma_crc_shift_injective(x: u32, y: u32)
    requires
        crc_shift(x) == crc_shift(y),
    ensures
        x == y,
{
    assert((if x & 1 != 0 { (x >> 1u32) ^ 0xC8DF_352Fu32 } else { x >> 1u32 })
        == (if y & 1 != 0 { (y >> 1u32) ^ 0xC8DF_352Fu32 } else { y >> 1u32 }) ==> x == y)
        by (bit_vector);
}

/// Any number of shifts is injective.
pub proof fn lemma_crc_shift_n_injective(x: u32, y: u32, n: nat)
    requires
        crc_shift_n(x, n) == crc_shift_n(y, n),
    ensures
        x == y,
    decreases n,
{
    if n > 0 {
        lemma_crc_shift_injective(crc_shift_n(x, (n - 1) as nat), crc_shift_n(y, (n - 1) as nat));
        lemma_crc_shift_n_injective(x, y, (n - 1) as nat);
    }
}

/// For a fixed register, distinct input bytes lead to distinct registers,
/// and for a fixed byte, distinct registers lead to distinct registers.
pub proof fn lemma_crc_byte_injective(c1: u32, b1: u8, c2: u32, b2: u8)
    requires
        crc_byte(c1, b1) == crc_byte(c2, b2),
    ensures
        c1 == c2 ==> b1 == b2,
        b1 == b2 ==> c1 == c2,
{
    lemma_crc_shift_n_injective(c1 ^ (b1 as u32), c2 ^ (b2 as u32), 8);
    assert(c1 ^ (b1 as u32) == c2 ^ (b2 as u32) ==> (c1 == c2 ==> b1 == b2) && (b1 == b2 ==> c1 == c2))
        by (bit_vector);
}

/// Feeding `a + b` is feeding `a`, then `b`.
pub proof fn lemma_crc_register_append(c: u32, a: Seq<u8>, b: Seq<u8>)
    ensures
        crc_register(c, a + b) == crc_register(crc_register(c, a), b),
    decreases b.len(),
{
    if b.len() == 0 {
        assert(a + b =~= a);
    } else {
        assert((a + b).drop_last() =~= a + b.drop_last());
        lemma_crc_register_append(c, a, b.drop_last());
    }
}

/// Feeding the same bytes into distinct registers gives distinct registers.
pub proof fn lemma_crc_register_injective(c1: u32, c2: u32, data: Seq<u8>)
    requires
        crc_register(c1, data) == crc_register(c2, data),
    ensures
        c1 == c2,
    decreases data.len(),
{
    if data.len() > 0 {
        lemma_crc_byte_injective(
            crc_register(c1, data.drop_last()),
            data.last(),
            crc_register(c2, data.drop_last()),
            data.last(),
        );
        lemma_crc_register_injective(c1, c2, data.drop_last());
    }
}

/// Two inputs of equal length that differ in exactly one byte have different CRCs.
pub proof fn lemma_crc32_detects_single_byte_change(data: Seq<u8>, k: int, b: u8)
    requires
        0 <= k < data.len(),
        data[k] != b,
    ensures
        crc32_autosar_spec(data) != crc32_autosar_spec(data.update(k, b)),
{
    let other = data.update(k, b);
    let pre = data.take(k);
    let suf = data.skip(k + 1);
    assert(data =~= pre + seq![data[k]] + suf);
    assert(other =~= pre + seq![b] + suf);
    lemma_crc_register_append(CRC_INIT, pre + seq![data[k]], suf);
    lemma_crc_register_append(CRC_INIT, pre + seq![b], suf);
    lemma_crc_register_append(CRC_INIT, pre, seq![data[k]]);
    lemma_crc_register_append(CRC_INIT, pre, seq![b]);
    let r = crc_register(CRC_INIT, pre);
    assert(seq![data[k]].drop_last() =~= Seq::<u8>::empty());
    assert(seq![b].drop_last() =~= Seq::<u8>::empty());
    assert(crc_register(r, seq![data[k]]) == crc_byte(crc_register(r, Seq::<u8>::empty()), data[k]));
    assert(crc_register(r, seq![b]) == crc_byte(crc_register(r, Seq::<u8>::empty()), b));
    if crc32_autosar_spec(data) == crc32_autosar_spec(other) {
        let x = crc_register(CRC_INIT, data);
        let y = crc_register(CRC_INIT, other);
        assert(x ^ CRC_XOROUT == y ^ CRC_XOROUT ==> x == y) by (bit_vector);
        lemma_crc_register_injective(crc_byte(r, data[k]), crc_byte(r, b), suf);
        lemma_crc_byte_injective(r, data[k], r, b);
    }
}

/// A register shift is linear over XOR.
proof fn lemma_crc_shift_xor(a: u32, b: u32)
    ensures
        crc_shift(a ^ b) == crc_shift(a) ^ crc_shift(b),
{
    assert((if (a ^ b) & 1 != 0 { ((a ^ b) >> 1u32) ^ 0xC8DF_352Fu32 } else { (a ^ b) >> 1u32 })
        == (if a & 1 != 0 { (a >> 1u32) ^ 0xC8DF_352Fu32 } else { a >> 1u32 })
            ^ (if b & 1 != 0 { (b >> 1u32) ^ 0xC8DF_352Fu32 } else { b >> 1u32 }))
        by (bit_vector);
}

/// Any number of shifts is linear over XOR.
proof fn lemma_crc_shift_n_xor(a: u32, b: u32, n: nat)
    ensures
        crc_shift_n(a ^ b, n) == crc_shift_n(a, n) ^ crc_shift_n(b, n),
    decreases n,
{
    if n > 0 {
        lemma_crc_shift_n_xor(a, b, (n - 1) as nat);
        lemma_crc_shift_xor(crc_shift_n(a, (n - 1) as nat), crc_shift_n(b, (n - 1) as nat));
    }
}

/// `m` shifts, then `n` more, are `m + n` shifts.
proof fn lemma_crc_shift_n_add(x: u32, m: nat, n: nat)
    ensures
        crc_shift_n(crc_shift_n(x, m), n) == crc_shift_n(x, m + n),
    decreases n,
{
    if n > 0 {
        lemma_crc_shift_n_add(x, m, (n - 1) as nat);
    }
}

/// Shifting out `n` zero bits only moves the register right: no polynomial is added.
proof fn lemma_crc_shift_n_low_zero(x: u32, n: u32)
    requires
        n <= 24,
        x & (((1u32 << n) - 1) as u32) == 0,
    ensures
        crc_shift_n(x, n as nat) == x >> n,
    decreases n,
{
    if n == 0 {
        assert(x >> 0u32 == x) by (bit_vector);
    } else {
        let m = (n - 1) as u32;
        let y = x >> m;
        assert(x & (((1u32 << m) - 1) as u32) == 0 && y & 1 == 0 && y >> 1u32 == x >> n)
            by (bit_vector)
            requires
                0 < n <= 24,
                m == n - 1,
                y == x >> m,
                x & (((1u32 << n) - 1) as u32) == 0,
        ;
        lemma_crc_shift_n_low_zero(x, m);
        assert(crc_shift_n(x, n as nat) == crc_shift(crc_shift_n(x, m as nat)));
        assert(crc_shift(y) == y >> 1u32);
    }
}

/// The little-endian word of up to four bytes.
pub open spec fn le_word(data: Seq<u8>) -> u32
    decreases data.len(),
{
    if data.len() == 0 {
        0
    } else {
        le_word(data.drop_last()) | (((data.last() as u32) << ((8 * (data.len() - 1)) as u32)) as u32)
    }
}

/// The little-endian word of up to `k` bytes has no bit at or above bit `8k`.
proof fn lemma_le_word_bound(data: Seq<u8>)
    requires
        data.len() <= 4,
    ensures
        data.len() < 4 ==> le_word(data) >> ((8 * data.len()) as u32) == 0,
    decreases data.len(),
{
    if data.len() == 0 {
        assert(0u32 >> 0u32 == 0) by (bit_vector);
    } else {
        let d = data.drop_last();
        lemma_le_word_bound(d);
        let w = le_word(d);
        let b = data.last();
        let k = d.len() as u32;
        let sh: u32 = (8 * d.len()) as u32;
        let sh2: u32 = (8 * data.len()) as u32;
        let hi: u32 = ((b as u32) << sh) as u32;
        assert(le_word(data) == w | hi);
        assert(k < 3 ==> (w | hi) >> sh2 == 0)
            by (bit_vector)
            requires
                k < 4,
                sh == 8 * k,
                sh2 == 8 * k + 8,
                hi == ((b as u32) << sh) as u32,
                k < 4 && k > 0 ==> w >> sh == 0,
                k == 0 ==> w == 0,
        ;
    }
}

/// Feeding up to four bytes into a register is shifting the register XOR their
/// little-endian word, eight times per byte.
pub proof fn lemma_crc_register_word(r: u32, data: Seq<u8>)
    requires
        data.len() <= 4,
    ensures
        crc_register(r, data) == crc_shift_n(r ^ le_word(data), 8 * data.len()),
    decreases data.len(),
{
    if data.len() == 0 {
        assert(r ^ 0u32 == r) by (bit_vector);
    } else {
        let d = data.drop_last();
        let b = data.last();
        let k = d.len();
        let w = le_word(d);
        let hi: u32 = ((b as u32) << ((8 * k) as u32)) as u32;
        lemma_crc_register_word(r, d);
        lemma_le_word_bound(d);
        let k32 = k as u32;
        assert((w | hi) == w ^ hi && hi & (((1u32 << (8 * k32)) - 1) as u32) == 0 && hi >> (8 * k32) == b as u32)
            by (bit_vector)
            requires
                k32 < 4,
                hi == ((b as u32) << (8 * k32)) as u32,
                k32 > 0 ==> w >> (8 * k32) == 0,
                k32 == 0 ==> w == 0,
        ;
        assert(r ^ (w ^ hi) == (r ^ w) ^ hi) by (bit_vector);
        lemma_crc_shift_n_xor(r ^ w, hi, 8 * k);
        lemma_crc_shift_n_low_zero(hi, (8 * k32) as u32);
        lemma_crc_shift_n_add(r ^ (w ^ hi), 8 * k, 8);
    }
}

/// The four bytes of `w`, least significant first.
pub open spec fn le_bytes(w: u32) -> Seq<u8> {
    seq![w as u8, (w >> 8u32) as u8, (w >> 16u32) as u8, (w >> 24u32) as u8]
}

/// The CRC every message followed by its own CRC, least significant byte first, has.
pub open spec fn crc32_residue() -> u32 {
    crc_shift_n(CRC_XOROUT, 32) ^ CRC_XOROUT
}

/// Residue: appending a message's CRC to it, least significant byte first, gives a CRC that
/// does not depend on the message.
pub proof fn lemma_crc32_residue(data: Seq<u8>)
    ensures
        crc32_autosar_spec(data + le_bytes(crc32_autosar_spec(data))) == crc32_residue(),
{
    let r = crc_register(CRC_INIT, data);
    let c = crc32_autosar_spec(data);
    let tail = le_bytes(c);
    lemma_crc_register_append(CRC_INIT, data, tail);
    lemma_crc_register_word(r, tail);
    let t1 = tail.take(1);
    let t2 = tail.take(2);
    let t3 = tail.take(3);
    assert(t1.drop_last() =~= Seq::<u8>::empty());
    assert(t2.drop_last() =~= t1);
    assert(t3.drop_last() =~= t2);
    assert(tail.drop_last() =~= t3);
    assert(t1.last() == c as u8);
    assert(le_word(t1.drop_last()) == 0);
    assert(le_word(t1) == 0u32 | ((((c as u8) as u32) << 0u32) as u32));
    assert(le_word(t2) == le_word(t1) | (((((c >> 8u32) as u8) as u32) << 8u32) as u32));
    assert(le_word(t3) == le_word(t2) | (((((c >> 16u32) as u8) as u32) << 16u32) as u32));
    assert(le_word(tail) == le_word(t3) | (((((c >> 24u32) as u8) as u32) << 24u32) as u32));
    assert(((((0u32 | (((c as u8) as u32) << 0u32)) | ((((c >> 8u32) as u8) as u32) << 8u32)) | ((((c >> 16u32) as u8) as u32) << 16u32))
        | ((((c >> 24u32) as u8) as u32) << 24u32)) == c) by (bit_vector);
    assert(le_word(tail) == c);
    assert(c == r ^ CRC_XOROUT);
    assert(r ^ (r ^ 0xFFFF_FFFFu32) == 0xFFFF_FFFFu32) by (bit_vector);
}

/// Byte `i` of the little-endian word of up to four bytes is the `i`-th byte.
proof fn lemma_le_word_bytes(data: Seq<u8>)
    requires
        data.len() <= 4,
    ensures
        forall|i: int| 0 <= i < data.len() ==> ((le_word(data) >> ((8 * i) as u32)) as u8) == #[trigger] data[i],
    decreases data.len(),
{
    if data.len() > 0 {
        let d = data.drop_last();
        lemma_le_word_bound(d);
        lemma_le_word_bytes(d);
        let w = le_word(d);
        let b = data.last();
        let k = d.len() as u32;
        let sh: u32 = (8 * d.len()) as u32;
        let hi: u32 = ((b as u32) << sh) as u32;
        assert(le_word(data) == w | hi);
        assert forall|i: int| 0 <= i < data.len() implies ((le_word(data) >> ((8 * i) as u32)) as u8) == #[trigger] data[i] by {
            let si: u32 = (8 * i) as u32;
            let wi = w >> si;
            if i < d.len() {
                assert(d[i] == data[i]);
                assert(((w | hi) >> si) as u8 == (w >> si) as u8)
                    by (bit_vector)
                    requires
                        k < 4,
                        sh == 8 * k,
                        hi == ((b as u32) << sh) as u32,
                        si < sh,
                        si % 8 == 0,
                ;
            } else {
                assert(((w | hi) >> si) as u8 == b)
                    by (bit_vector)
                    requires
                        k < 4,
                        sh == 8 * k,
                        hi == ((b as u32) << sh) as u32,
                        si == sh,
                        k > 0 ==> w >> sh == 0,
                        k == 0 ==> w == 0,
                ;
            }
        }
    }
}

/// Two inputs of equal length that differ only within four consecutive bytes (a burst of
/// at most 32 bits, starting on a byte boundary) have different CRCs.
pub proof fn lemma_crc32_detects_byte_burst(a: Seq<u8>, b: Seq<u8>, k: int)
    requires
        a.len() == b.len(),
        0 <= k <= a.len(),
        forall|i: int| 0 <= i < a.len() && (i < k || k + 4 <= i) ==> a[i] == b[i],
        a != b,
    ensures
        crc32_autosar_spec(a) != crc32_autosar_spec(b),
{
    let e = if k + 4 <= a.len() { k + 4 } else { a.len() as int };
    let pre = a.take(k);
    let wa = a.subrange(k, e);
    let wb = b.subrange(k, e);
    let suf = a.skip(e);
    assert(a =~= pre + wa + suf);
    assert(b.take(k) =~= pre);
    assert(b.skip(e) =~= suf);
    assert(b =~= pre + wb + suf);
    if crc32_autosar_spec(a) == crc32_autosar_spec(b) {
        lemma_crc_register_append(CRC_INIT, pre + wa, suf);
        lemma_crc_register_append(CRC_INIT, pre + wb, suf);
        lemma_crc_register_append(CRC_INIT, pre, wa);
        lemma_crc_register_append(CRC_INIT, pre, wb);
        let r = crc_register(CRC_INIT, pre);
        let x = crc_register(CRC_INIT, a);
        let y = crc_register(CRC_INIT, b);
        assert(x ^ CRC_XOROUT == y ^ CRC_XOROUT ==> x == y) by (bit_vector);
        lemma_crc_register_injective(crc_register(r, wa), crc_register(r, wb), suf);
        lemma_crc_register_word(r, wa);
        lemma_crc_register_word(r, wb);
        lemma_crc_shift_n_injective(r ^ le_word(wa), r ^ le_word(wb), 8 * wa.len());
        let ua = le_word(wa);
        let ub = le_word(wb);
        assert(r ^ ua == r ^ ub ==> ua == ub) by (bit_vector);
        lemma_le_word_bytes(wa);
        lemma_le_word_bytes(wb);
        assert forall|i: int| 0 <= i < wa.len() implies wa[i] == wb[i] by {
            assert(wa[i] == ((ua >> ((8 * i) as u32)) as u8));
            assert(wb[i] == ((ub >> ((8 * i) as u32)) as u8));
        }
        assert(wa =~= wb);
        assert(a =~= b);
    }
}

/// Flipping any single bit of an input changes its CRC.
pub proof fn lemma_crc32_detects_single_bit_flip(data: Seq<u8>, k: int, j: u8)
    requires
        0 <= k < data.len(),
        j < 8,
    ensures
        crc32_autosar_spec(data) != crc32_autosar_spec(data.update(k, data[k] ^ ((1u8 << j) as u8))),
{
    let v = data[k];
    assert(v ^ ((1u8 << j) as u8) != v) by (bit_vector)
        requires
            j < 8,
    ;
    lemma_crc32_detects_single_byte_change(data, k, v ^ ((1u8 << j) as u8));
}

/// Thirty-two shifts of `0X91BE6A5F` give `1`.
proof fn lemma_shift_32_bit0()
    ensures
        crc_shift_n(0x91BE6A5Fu32, 32) == 1u32,
{
    reveal_with_fuel(crc_shift_n, 33);
    let y0 = 0x91BE6A5Fu32;
    let y1 = crc_shift(y0);
    let y2 = crc_shift(y1);
    let y3 = crc_shift(y2);
    let y4 = crc_shift(y3);
    let y5 = crc_shift(y4);
    let y6 = crc_shift(y5);
    let y7 = crc_shift(y6);
    let y8 = crc_shift(y7);
    let y9 = crc_shift(y8);
    let y10 = crc_shift(y9);
    let y11 = crc_shift(y10);
    let y12 = crc_shift(y11);
    let y13 = crc_shift(y12);
    let y14 = crc_shift(y13);
    let y15 = crc_shift(y14);
    let y16 = crc_shift(y15);
    let y17 = crc_shift(y16);
    let y18 = crc_shift(y17);
    let y19 = crc_shift(y18);
    let y20 = crc_shift(y19);
    let y21 = crc_shift(y20);
    let y22 = crc_shift(y21);
    let y23 = crc_shift(y22);
    let y24 = crc_shift(y23);
    let y25 = crc_shift(y24);
    let y26 = crc_shift(y25);
    let y27 = crc_shift(y26);
    let y28 = crc_shift(y27);
    let y29 = crc_shift(y28);
    let y30 = crc_shift(y29);
    let y31 = crc_shift(y30);
    let y32 = crc_shift(y31);
    assert(y32 == 1u32) by (bit_vector)
        requires
            y0 == 0x91BE6A5Fu32,
            y1 == crc_shift(y0),
            y2 == crc_shift(y1),
            y3 == crc_shift(y2),
            y4 == crc_shift(y3),
            y5 == crc_shift(y4),
            y6 == crc_shift(y5),
            y7 == crc_shift(y6),
            y8 == crc_shift(y7),
            y9 == crc_shift(y8),
            y10 == crc_shift(y9),
            y11 == crc_shift(y10),
            y12 == crc_shift(y11),
            y13 == crc_shift(y12),
            y14 == crc_shift(y13),
            y15 == crc_shift(y14),
            y16 == crc_shift(y15),
            y17 == crc_shift(y16),
            y18 == crc_shift(y17),
            y19 == crc_shift(y18),
            y20 == crc_shift(y19),
            y21 == crc_shift(y20),
            y22 == crc_shift(y21),
            y23 == crc_shift(y22),
            y24 == crc_shift(y23),
            y25 == crc_shift(y24),
            y26 == crc_shift(y25),
            y27 == crc_shift(y26),
            y28 == crc_shift(y27),
            y29 == crc_shift(y28),
            y30 == crc_shift(y29),
            y31 == crc_shift(y30),
            y32 == crc_shift(y31),
    ;
}

/// Thirty-two shifts of `0XB2C2BEE1` give `2`.
proof fn lemma_shift_32_bit1()
    ensures
        crc_shift_n(0xB2C2BEE1u32, 32) == 2u32,
{
    reveal_with_fuel(crc_shift_n, 33);
    let y0 = 0xB2C2BEE1u32;
    let y1 = crc_shift(y0);
    let y2 = crc_shift(y1);
    let y3 = crc_shift(y2);
    let y4 = crc_shift(y3);
    let y5 = crc_shift(y4);
    let y6 = crc_shift(y5);
    let y7 = crc_shift(y6);
    let y8 = crc_shift(y7);
    let y9 = crc_shift(y8);
    let y10 = crc_shift(y9);
    let y11 = crc_shift(y10);
    let y12 = crc_shift(y11);
    let y13 = crc_shift(y12);
    let y14 = crc_shift(y13);
    let y15 = crc_shift(y14);
    let y16 = crc_shift(y15);
    let y17 = crc_shift(y16);
    let y18 = crc_shift(y17);
    let y19 = crc_shift(y18);
    let y20 = crc_shift(y19);
    let y21 = crc_shift(y20);
    let y22 = crc_shift(y21);
    let y23 = crc_shift(y22);
    let y24 = crc_shift(y23);
    let y25 = crc_shift(y24);
    let y26 = crc_shift(y25);
    let y27 = crc_shift(y26);
    let y28 = crc_shift(y27);
    let y29 = crc_shift(y28);
    let y30 = crc_shift(y29);
    let y31 = crc_shift(y30);
    let y32 = crc_shift(y31);
    assert(y32 == 2u32) by (bit_vector)
        requires
            y0 == 0xB2C2BEE1u32,
            y1 == crc_shift(y0),
            y2 == crc_shift(y1),
            y3 == crc_shift(y2),
            y4 == crc_shift(y3),
            y5 == crc_shift(y4),
            y6 == crc_shift(y5),
            y7 == crc_shift(y6),
            y8 == crc_shift(y7),
            y9 == crc_shift(y8),
            y10 == crc_shift(y9),
            y11 == crc_shift(y10),
            y12 == crc_shift(y11),
            y13 == crc_shift(y12),
            y14 == crc_shift(y13),
            y15 == crc_shift(y14),
            y16 == crc_shift(y15),
            y17 == crc_shift(y16),
            y18 == crc_shift(y17),
            y19 == crc_shift(y18),
            y20 == crc_shift(y19),
            y21 == crc_shift(y20),
            y22 == crc_shift(y21),
            y23 == crc_shift(y22),
            y24 == crc_shift(y23),
            y25 == crc_shift(y24),
            y26 == crc_shift(y25),
            y27 == crc_shift(y26),
            y28 == crc_shift(y27),
            y29 == crc_shift(y28),
            y30 == crc_shift(y29),
            y31 == crc_shift(y30),
            y32 == crc_shift(y31),
    ;
}

/// Thirty-two shifts of `0XF43B179D` give `4`.
proof fn lemma_shift_32_bit2()
    ensures
        crc_shift_n(0xF43B179Du32, 32) == 4u32,
{
    reveal_with_fuel(crc_shift_n, 33);
    let y0 = 0xF43B179Du32;
    let y1 = crc_shift(y0);
    let y2 = crc_shift(y1);
    let y3 = crc_shift(y2);
    let y4 = crc_shift(y3);
    let y5 = crc_shift(y4);
    let y6 = crc_shift(y5);
    let y7 = crc_shift(y6);
    let y8 = crc_shift(y7);
    let y9 = crc_shift(y8);
    let y10 = crc_shift(y9);
    let y11 = crc_shift(y10);
    let y12 = crc_shift(y11);
    let y13 = crc_shift(y12);
    let y14 = crc_shift(y13);
    let y15 = crc_shift(y14);
    let y16 = crc_shift(y15);
    let y17 = crc_shift(y16);
    let y18 = crc_shift(y17);
    let y19 = crc_shift(y18);
    let y20 = crc_shift(y19);
    let y21 = crc_shift(y20);
    let y22 = crc_shift(y21);
    let y23 = crc_shift(y22);
    let y24 = crc_shift(y23);
    let y25 = crc_shift(y24);
    let y26 = crc_shift(y25);
    let y27 = crc_shift(y26);
    let y28 = crc_shift(y27);
    let y29 = crc_shift(y28);
    let y30 = crc_shift(y29);
    let y31 = crc_shift(y30);
    let y32 = crc_shift(y31);
    assert(y32 == 4u32) by (bit_vector)
        requires
            y0 == 0xF43B179Du32,
            y1 == crc_shift(y0),
            y2 == crc_shift(y1),
            y3 == crc_shift(y2),
            y4 == crc_shift(y3),
            y5 == crc_shift(y4),
            y6 == crc_shift(y5),
            y7 == crc_shift(y6),
            y8 == crc_shift(y7),
            y9 == crc_shift(y8),
            y10 == crc_shift(y9),
            y11 == crc_shift(y10),
            y12 == crc_shift(y11),
            y13 == crc_shift(y12),
            y14 == crc_shift(y13),
            y15 == crc_shift(y14),
            y16 == crc_shift(y15),
            y17 == crc_shift(y16),
            y18 == crc_shift(y17),
            y19 == crc_shift(y18),
            y20 == crc_shift(y19),
            y21 == crc_shift(y20),
            y22 == crc_shift(y21),
            y23 == crc_shift(y22),
            y24 == crc_shift(y23),
            y25 == crc_shift(y24),
            y26 == crc_shift(y25),
            y27 == crc_shift(y26),
            y28 == crc_shift(y27),
            y29 == crc_shift(y28),
            y30 == crc_shift(y29),
            y31 == crc_shift(y30),
            y32 == crc_shift(y31),
    ;
}

/// Thirty-two shifts of `0X79C84565` give `8`.
proof fn lemma_shift_32_bit3()
    ensures
        crc_shift_n(0x79C84565u32, 32) == 8u32,
{
    reveal_with_fuel(crc_shift_n, 33);
    let y0 = 0x79C84565u32;
    let y1 = crc_shift(y0);
    let y2 = crc_shift(y1);
    let y3 = crc_shift(y2);
    let y4 = crc_shift(y3);
    let y5 = crc_shift(y4);
    let y6 = crc_shift(y5);
    let y7 = crc_shift(y6);
    let y8 = crc_shift(y7);
    let y9 = crc_shift(y8);
    let y10 = crc_shift(y9);
    let y11 = crc_shift(y10);
    let y12 = crc_shift(y11);
    let y13 = crc_shift(y12);
    let y14 = crc_shift(y13);
    let y15 = crc_shift(y14);
    let y16 = crc_shift(y15);
    let y17 = crc_shift(y16);
    let y18 = crc_shift(y17);
    let y19 = crc_shift(y18);
    let y20 = crc_shift(y19);
    let y21 = crc_shift(y20);
    let y22 = crc_shift(y21);
    let y23 = crc_shift(y22);
    let y24 = crc_shift(y23);
    let y25 = crc_shift(y24);
    let y26 = crc_shift(y25);
    let y27 = crc_shift(y26);
    let y28 = crc_shift(y27);
    let y29 = crc_shift(y28);
    let y30 = crc_shift(y29);
    let y31 = crc_shift(y30);
    let y32 = crc_shift(y31);
    assert(y32 == 8u32) by (bit_vector)
        requires
            y0 == 0x79C84565u32,
            y1 == crc_shift(y0),
            y2 == crc_shift(y1),
            y3 == crc_shift(y2),
            y4 == crc_shift(y3),
            y5 == crc_shift(y4),
            y6 == crc_shift(y5),
            y7 == crc_shift(y6),
            y8 == crc_shift(y7),
            y9 == crc_shift(y8),
            y10 == crc_shift(y9),
            y11 == crc_shift(y10),
            y12 == crc_shift(y11),
            y13 == crc_shift(y12),
            y14 == crc_shift(y13),
            y15 == crc_shift(y14),
            y16 == crc_shift(y15),
            y17 == crc_shift(y16),
            y18 == crc_shift(y17),
            y19 == crc_shift(y18),
            y20 == crc_shift(y19),
            y21 == crc_shift(y20),
            y22 == crc_shift(y21),
            y23 == crc_shift(y22),
            y24 == crc_shift(y23),
            y25 == crc_shift(y24),
            y26 == crc_shift(y25),
            y27 == crc_shift(y26),
            y28 == crc_shift(y27),
            y29 == crc_shift(y28),
            y30 == crc_shift(y29),
            y31 == crc_shift(y30),
            y32 == crc_shift(y31),
    ;
}

/// Thirty-two shifts of `0XF3908ACA` give `16`.
proof fn lemma_shift_32_bit4()
    ensures
        crc_shift_n(0xF3908ACAu32, 32) == 16u32,
{
    reveal_with_fuel(crc_shift_n, 33);
    let y0 = 0xF3908ACAu32;
    let y1 = crc_shift(y0);
    let y2 = crc_shift(y1);
    let y3 = crc_shift(y2);
    let y4 = crc_shift(y3);
    let y5 = crc_shift(y4);
    let y6 = crc_shift(y5);
    let y7 = crc_shift(y6);
    let y8 = crc_shift(y7);
    let y9 = crc_shift(y8);
    let y10 = crc_shift(y9);
    let y11 = crc_shift(y10);
    let y12 = crc_shift(y11);
    let y13 = crc_shift(y12);
    let y14 = crc_shift(y13);
    let y15 = crc_shift(y14);
    let y16 = crc_shift(y15);
    let y17 = crc_shift(y16);
    let y18 = crc_shift(y17);
    let y19 = crc_shift(y18);
    let y20 = crc_shift(y19);
    let y21 = crc_shift(y20);
    let y22 = crc_shift(y21);
    let y23 = crc_shift(y22);
    let y24 = crc_shift(y23);
    let y25 = crc_shift(y24);
    let y26 = crc_shift(y25);
    let y27 = crc_shift(y26);
    let y28 = crc_shift(y27);
    let y29 = crc_shift(y28);
    let y30 = crc_shift(y29);
    let y31 = crc_shift(y30);
    let y32 = crc_shift(y31);
    assert(y32 == 16u32) by (bit_vector)
        requires
            y0 == 0xF3908ACAu32,
            y1 == crc_shift(y0),
            y2 == crc_shift(y1),
            y3 == crc_shift(y2),
            y4 == crc_shift(y3),
            y5 == crc_shift(y4),
            y6 == crc_shift(y5),
            y7 == crc_shift(y6),
            y8 == crc_shift(y7),
            y9 == crc_shift(y8),
            y10 == crc_shift(y9),
            y11 == crc_shift(y10),
            y12 == crc_shift(y11),
            y13 == crc_shift(y12),
            y14 == crc_shift(y13),
            y15 == crc_shift(y14),
            y16 == crc_shift(y15),
            y17 == crc_shift(y16),
            y18 == crc_shift(y17),
            y19 == crc_shift(y18),
            y20 == crc_shift(y19),
            y21 == crc_shift(y20),
            y22 == crc_shift(y21),
            y23 == crc_shift(y22),
            y24 == crc_shift(y23),
            y25 == crc_shift(y24),
            y26 == crc_shift(y25),
            y27 == crc_shift(y26),
            y28 == crc_shift(y27),
            y29 == crc_shift(y28),
            y30 == crc_shift(y29),
            y31 == crc_shift(y30),
            y32 == crc_shift(y31),
    ;
}

/// Thirty-two shifts of `0X769F7FCB` give `32`.
proof fn lemma_shift_32_bit5()
    ensures
        crc_shift_n(0x769F7FCBu32, 32) == 32u32,
{
    reveal_with_fuel(crc_shift_n, 33);
    let y0 = 0x769F7FCBu32;
    let y1 = crc_shift(y0);
    let y2 = crc_shift(y1);
    let y3 = crc_shift(y2);
    let y4 = crc_shift(y3);
    let y5 = crc_shift(y4);
    let y6 = crc_shift(y5);
    let y7 = crc_shift(y6);
    let y8 = crc_shift(y7);
    let y9 = crc_shift(y8);
    let y10 = crc_shift(y9);
    let y11 = crc_shift(y10);
    let y12 = crc_shift(y11);
    let y13 = crc_shift(y12);
    let y14 = crc_shift(y13);
    let y15 = crc_shift(y14);
    let y16 = crc_shift(y15);
    let y17 = crc_shift(y16);
    let y18 = crc_shift(y17);
    let y19 = crc_shift(y18);
    let y20 = crc_shift(y19);
    let y21 = crc_shift(y20);
    let y22 = crc_shift(y21);
    let y23 = crc_shift(y22);
    let y24 = crc_shift(y23);
    let y25 = crc_shift(y24);
    let y26 = crc_shift(y25);
    let y27 = crc_shift(y26);
    let y28 = crc_shift(y27);
    let y29 = crc_shift(y28);
    let y30 = crc_shift(y29);
    let y31 = crc_shift(y30);
    let y32 = crc_shift(y31);
    assert(y32 == 32u32) by (bit_vector)
        requires
            y0 == 0x769F7FCBu32,
            y1 == crc_shift(y0),
            y2 == crc_shift(y1),
            y3 == crc_shift(y2),
            y4 == crc_shift(y3),
            y5 == crc_shift(y4),
            y6 == crc_shift(y5),
            y7 == crc_shift(y6),
            y8 == crc_shift(y7),
            y9 == crc_shift(y8),
            y10 == crc_shift(y9),
            y11 == crc_shift(y10),
            y12 == crc_shift(y11),
            y13 == crc_shift(y12),
            y14 == crc_shift(y13),
            y15 == crc_shift(y14),
            y16 == crc_shift(y15),
            y17 == crc_shift(y16),
            y18 == crc_shift(y17),
            y19 == crc_shift(y18),
            y20 == crc_shift(y19),
            y21 == crc_shift(y20),
            y22 == crc_shift(y21),
            y23 == crc_shift(y22),
            y24 == crc_shift(y23),
            y25 == crc_shift(y24),
            y26 == crc_shift(y25),
            y27 == crc_shift(y26),
            y28 == crc_shift(y27),
            y29 == crc_shift(y28),
            y30 == crc_shift(y29),
            y31 == crc_shift(y30),
            y32 == crc_shift(y31),
    ;
}

/// Thirty-two shifts of `0XED3EFF96` give `64`.
proof fn lemma_shift_32_bit6()
    ensures
        crc_shift_n(0xED3EFF96u32, 32) == 64u32,
{
    reveal_with_fuel(crc_shift_n, 33);
    let y0 = 0xED3EFF96u32;
    let y1 = crc_shift(y0);
    let y2 = crc_shift(y1);
    let y3 = crc_shift(y2);
    let y4 = crc_shift(y3);
    let y5 = crc_shift(y4);
    let y6 = crc_shift(y5);
    let y7 = crc_shift(y6);
    let y8 = crc_shift(y7);
    let y9 = crc_shift(y8);
    let y10 = crc_shift(y9);
    let y11 = crc_shift(y10);
    let y12 = crc_shift(y11);
    let y13 = crc_shift(y12);
    let y14 = crc_shift(y13);
    let y15 = crc_shift(y14);
    let y16 = crc_shift(y15);
    let y17 = crc_shift(y16);
    let y18 = crc_shift(y17);
    let y19 = crc_shift(y18);
    let y20 = crc_shift(y19);
    let y21 = crc_shift(y20);
    let y22 = crc_shift(y21);
    let y23 = crc_shift(y22);
    let y24 = crc_shift(y23);
    let y25 = crc_shift(y24);
    let y26 = crc_shift(y25);
    let y27 = crc_shift(y26);
    let y28 = crc_shift(y27);
    let y29 = crc_shift(y28);
    let y30 = crc_shift(y29);
    let y31 = crc_shift(y30);
    let y32 = crc_shift(y31);
    assert(y32 == 64u32) by (bit_vector)
        requires
            y0 == 0xED3EFF96u32,
            y1 == crc_shift(y0),
            y2 == crc_shift(y1),
            y3 == crc_shift(y2),
            y4 == crc_shift(y3),
            y5 == crc_shift(y4),
            y6 == crc_shift(y5),
            y7 == crc_shift(y6),
            y8 == crc_shift(y7),
            y9 == crc_shift(y8),
            y10 == crc_shift(y9),
            y11 == crc_shift(y10),
            y12 == crc_shift(y11),
            y13 == crc_shift(y12),
            y14 == crc_shift(y13),
            y15 == crc_shift(y14),
            y16 == crc_shift(y15),
            y17 == crc_shift(y16),
            y18 == crc_shift(y17),
            y19 == crc_shift(y18),
            y20 == crc_shift(y19),
            y21 == crc_shift(y20),
            y22 == crc_shift(y21),
            y23 == crc_shift(y22),
            y24 == crc_shift(y23),
            y25 == crc_shift(y24),
            y26 == crc_shift(y25),
            y27 == crc_shift(y26),
            y28 == crc_shift(y27),
            y29 == crc_shift(y28),
            y30 == crc_shift(y29),
            y31 == crc_shift(y30),
            y32 == crc_shift(y31),
    ;
}

/// The register that thirty-two shifts turn into `v`, for `v` below 128: the XOR of the
/// preimages of its bits.
spec fn shift_32_preimage(v: u32) -> u32 {
    (if v & 1 != 0 { 0x91BE_6A5Fu32 } else { 0u32 }) ^ (if v & 2 != 0 { 0xB2C2_BEE1u32 } else { 0u32 })
        ^ (if v & 4 != 0 { 0xF43B_179Du32 } else { 0u32 }) ^ (if v & 8 != 0 { 0x79C8_4565u32 } else { 0u32 })
        ^ (if v & 16 != 0 { 0xF390_8ACAu32 } else { 0u32 }) ^ (if v & 32 != 0 { 0x769F_7FCBu32 } else { 0u32 })
        ^ (if v & 64 != 0 { 0xED3E_FF96u32 } else { 0u32 })
}

proof fn lemma_crc_shift_n_zero(n: nat)
    ensures
        crc_shift_n(0, n) == 0,
    decreases n,
{
    if n > 0 {
        lemma_crc_shift_n_zero((n - 1) as nat);
        assert(crc_shift(0) == 0) by (bit_vector);
    }
}

/// Thirty-two shifts of `shift_32_preimage(v)` give `v`.
proof fn lemma_shift_32_preimage(v: u32)
    requires
        v < 128,
    ensures
        crc_shift_n(shift_32_preimage(v), 32) == v,
{
    let c0 = 0x91BE_6A5Fu32;
    let c1 = 0xB2C2_BEE1u32;
    let c2 = 0xF43B_179Du32;
    let c3 = 0x79C8_4565u32;
    let c4 = 0xF390_8ACAu32;
    let c5 = 0x769F_7FCBu32;
    let c6 = 0xED3E_FF96u32;
    lemma_shift_32_bit0();
    lemma_shift_32_bit1();
    lemma_shift_32_bit2();
    lemma_shift_32_bit3();
    lemma_shift_32_bit4();
    lemma_shift_32_bit5();
    lemma_shift_32_bit6();
    lemma_crc_shift_n_zero(32);
    let a0 = if v & 1 != 0 { c0 } else { 0u32 };
    let a1 = if v & 2 != 0 { c1 } else { 0u32 };
    let a2 = if v & 4 != 0 { c2 } else { 0u32 };
    let a3 = if v & 8 != 0 { c3 } else { 0u32 };
    let a4 = if v & 16 != 0 { c4 } else { 0u32 };
    let a5 = if v & 32 != 0 { c5 } else { 0u32 };
    let a6 = if v & 64 != 0 { c6 } else { 0u32 };
    assert(shift_32_preimage(v) == a0 ^ a1 ^ a2 ^ a3 ^ a4 ^ a5 ^ a6);
    lemma_crc_shift_n_xor(a0 ^ a1 ^ a2 ^ a3 ^ a4 ^ a5, a6, 32);
    lemma_crc_shift_n_xor(a0 ^ a1 ^ a2 ^ a3 ^ a4, a5, 32);
    lemma_crc_shift_n_xor(a0 ^ a1 ^ a2 ^ a3, a4, 32);
    lemma_crc_shift_n_xor(a0 ^ a1 ^ a2, a3, 32);
    lemma_crc_shift_n_xor(a0 ^ a1, a2, 32);
    lemma_crc_shift_n_xor(a0, a1, 32);
    let b0 = if v & 1 != 0 { 1u32 } else { 0u32 };
    let b1 = if v & 2 != 0 { 2u32 } else { 0u32 };
    let b2 = if v & 4 != 0 { 4u32 } else { 0u32 };
    let b3 = if v & 8 != 0 { 8u32 } else { 0u32 };
    let b4 = if v & 16 != 0 { 16u32 } else { 0u32 };
    let b5 = if v & 32 != 0 { 32u32 } else { 0u32 };
    let b6 = if v & 64 != 0 { 64u32 } else { 0u32 };
    assert(crc_shift_n(a0, 32) == b0);
    assert(crc_shift_n(a1, 32) == b1);
    assert(crc_shift_n(a2, 32) == b2);
    assert(crc_shift_n(a3, 32) == b3);
    assert(crc_shift_n(a4, 32) == b4);
    assert(crc_shift_n(a5, 32) == b5);
    assert(crc_shift_n(a6, 32) == b6);
    assert(b0 ^ b1 ^ b2 ^ b3 ^ b4 ^ b5 ^ b6 == v) by (bit_vector)
        requires
            v < 128,
            b0 == if v & 1 != 0 { 1u32 } else { 0u32 },
            b1 == if v & 2 != 0 { 2u32 } else { 0u32 },
            b2 == if v & 4 != 0 { 4u32 } else { 0u32 },
            b3 == if v & 8 != 0 { 8u32 } else { 0u32 },
            b4 == if v & 16 != 0 { 16u32 } else { 0u32 },
            b5 == if v & 32 != 0 { 32u32 } else { 0u32 },
            b6 == if v & 64 != 0 { 64u32 } else { 0u32 },
    ;
}

/// The low 32 bits of the burst pattern `e` moved up by `j` bits.
pub open spec fn burst_low(e: u32, j: u32) -> u32 {
    (e << j) as u32
}

/// The bits of the burst pattern `e` moved up by `j` bits that pass bit 31.
pub open spec fn burst_high(e: u32, j: u32) -> u8 {
    if j == 0 {
        0
    } else {
        (e >> ((32 - j) as u32)) as u8
    }
}

/// Thirty-two shifts never turn a nonzero burst's low word into its high bits: the
/// generator polynomial divides no burst of at most 32 bits.
proof fn lemma_burst_not_absorbed(e: u32, j: u32)
    requires
        e != 0,
        j < 8,
    ensures
        crc_shift_n(burst_low(e, j), 32) != burst_high(e, j) as u32,
{
    let w = burst_low(e, j);
    let v = burst_high(e, j) as u32;
    assert(v < 128 && w & (((1u32 << j) - 1) as u32) == 0 && (v == 0 ==> w != 0) && (v != 0 ==> 1 <= j && v < (1u32 << j)))
        by (bit_vector)
        requires
            e != 0,
            j < 8,
            w == (e << j) as u32,
            v == if j == 0 { 0u32 } else { ((e >> ((32 - j) as u32)) as u8) as u32 },
    ;
    lemma_crc_shift_n_zero(32);
    if crc_shift_n(w, 32) == v {
        if v == 0 {
            lemma_crc_shift_n_injective(w, 0, 32);
        } else {
            lemma_shift_32_preimage(v);
            lemma_crc_shift_n_injective(w, shift_32_preimage(v), 32);
            let q = shift_32_preimage(v);
            assert(q & (((1u32 << j) - 1) as u32) != 0) by (bit_vector)
                requires
                    1 <= j <= 7,
                    0 < v < (1u32 << j),
                    q == (if v & 1 != 0 { 0x91BE_6A5Fu32 } else { 0u32 }) ^ (if v & 2 != 0 { 0xB2C2_BEE1u32 } else { 0u32 })
                        ^ (if v & 4 != 0 { 0xF43B_179Du32 } else { 0u32 }) ^ (if v & 8 != 0 { 0x79C8_4565u32 } else { 0u32 })
                        ^ (if v & 16 != 0 { 0xF390_8ACAu32 } else { 0u32 }) ^ (if v & 32 != 0 { 0x769F_7FCBu32 } else { 0u32 })
                        ^ (if v & 64 != 0 { 0xED3E_FF96u32 } else { 0u32 }),
            ;
        }
    }
}

/// `data` with a burst of errors: the bits of `e` moved up by `j` bits, flipped in the five
/// bytes from byte `k` on, least significant byte first.
pub open spec fn flip_burst(data: Seq<u8>, k: int, j: u32, e: u32) -> Seq<u8> {
    Seq::new(
        data.len(),
        |i: int|
            if k <= i < k + 4 {
                data[i] ^ ((burst_low(e, j) >> ((8 * (i - k)) as u32)) as u8)
            } else if i == k + 4 {
                data[i] ^ burst_high(e, j)
            } else {
                data[i]
            },
    )
}

/// Every burst of at most 32 bit errors is detected: flipping the bits of a nonzero 32-bit
/// pattern, starting at any bit of a byte with five bytes left, changes the CRC. A burst in
/// the last four bytes lies within four consecutive bytes: `lemma_crc32_detects_byte_burst`.
pub proof fn lemma_crc32_detects_burst(data: Seq<u8>, k: int, j: u32, e: u32)
    requires
        0 <= k,
        k + 5 <= data.len(),
        j < 8,
        e != 0,
    ensures
        crc32_autosar_spec(data) != crc32_autosar_spec(flip_burst(data, k, j, e)),
{
    let a = data;
    let b = flip_burst(data, k, j, e);
    let lo = burst_low(e, j);
    let hi = burst_high(e, j);
    let pre = a.take(k);
    let wa = a.subrange(k, k + 4);
    let wb = b.subrange(k, k + 4);
    let a4 = a[k + 4];
    let b4 = b[k + 4];
    let suf = a.skip(k + 5);
    assert(a =~= pre + wa + seq![a4] + suf);
    assert(b.take(k) =~= pre);
    assert(b.skip(k + 5) =~= suf);
    assert(b =~= pre + wb + seq![b4] + suf);
    if crc32_autosar_spec(a) == crc32_autosar_spec(b) {
        let x = crc_register(CRC_INIT, a);
        let y = crc_register(CRC_INIT, b);
        assert(x ^ CRC_XOROUT == y ^ CRC_XOROUT ==> x == y) by (bit_vector);
        lemma_crc_register_append(CRC_INIT, pre + wa + seq![a4], suf);
        lemma_crc_register_append(CRC_INIT, pre + wb + seq![b4], suf);
        assert((pre + wa + seq![a4]).drop_last() =~= pre + wa);
        assert((pre + wb + seq![b4]).drop_last() =~= pre + wb);
        lemma_crc_register_append(CRC_INIT, pre, wa);
        lemma_crc_register_append(CRC_INIT, pre, wb);
        let r = crc_register(CRC_INIT, pre);
        let ra = crc_register(r, wa);
        let rb = crc_register(r, wb);
        lemma_crc_register_injective(crc_byte(ra, a4), crc_byte(rb, b4), suf);
        lemma_crc_shift_n_injective(ra ^ (a4 as u32), rb ^ (b4 as u32), 8);
        lemma_crc_register_word(r, wa);
        lemma_crc_register_word(r, wb);
        let ua = le_word(wa);
        let ub = le_word(wb);
        lemma_crc_shift_n_xor(r ^ ua, r ^ ub, 32);
        assert(b4 == a4 ^ hi);
        assert((r ^ ua) ^ (r ^ ub) == ua ^ ub) by (bit_vector);
        assert(ra ^ (a4 as u32) == rb ^ (b4 as u32) && b4 == a4 ^ hi ==> ra ^ rb == hi as u32) by (bit_vector);
        lemma_le_word_bytes(wa);
        lemma_le_word_bytes(wb);
        assert(wa[0] == a[k] && wb[0] == b[k]);
        assert(wa[1] == a[k + 1] && wb[1] == b[k + 1]);
        assert(wa[2] == a[k + 2] && wb[2] == b[k + 2]);
        assert(wa[3] == a[k + 3] && wb[3] == b[k + 3]);
        let u0 = (ua >> 0u32) as u8;
        let u1 = (ua >> 8u32) as u8;
        let u2 = (ua >> 16u32) as u8;
        let u3 = (ua >> 24u32) as u8;
        let v0 = (ub >> 0u32) as u8;
        let v1 = (ub >> 8u32) as u8;
        let v2 = (ub >> 16u32) as u8;
        let v3 = (ub >> 24u32) as u8;
        assert(u0 == wa[0] && u1 == wa[1] && u2 == wa[2] && u3 == wa[3]);
        assert(v0 == wb[0] && v1 == wb[1] && v2 == wb[2] && v3 == wb[3]);
        assert(ua ^ ub == lo) by (bit_vector)
            requires
                u0 == (ua >> 0u32) as u8,
                u1 == (ua >> 8u32) as u8,
                u2 == (ua >> 16u32) as u8,
                u3 == (ua >> 24u32) as u8,
                v0 == (ub >> 0u32) as u8,
                v1 == (ub >> 8u32) as u8,
                v2 == (ub >> 16u32) as u8,
                v3 == (ub >> 24u32) as u8,
                v0 == u0 ^ ((lo >> 0u32) as u8),
                v1 == u1 ^ ((lo >> 8u32) as u8),
                v2 == u2 ^ ((lo >> 16u32) as u8),
                v3 == u3 ^ ((lo >> 24u32) as u8),
        ;
        lemma_burst_not_absorbed(e, j);
    }
}

} // verus!
