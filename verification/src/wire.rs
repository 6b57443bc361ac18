//! Numbers as the wire holds them: little-endian, byte by byte.

use vstd::prelude::*;

verus! {

/// The number whose little-endian digits, base 256, are `bytes`.
pub open spec fn le_value(bytes: Seq<u8>) -> nat
    decreases bytes.len(),
{
    if bytes.len() == 0 {
        0
    } else {
        bytes[0] as nat + 256 * le_value(bytes.drop_first())
    }
}

/// The `n` low little-endian digits, base 256, of `value`.
pub open spec fn le_bytes(value: nat, n: nat) -> Seq<u8>
    decreases n,
{
    if n == 0 {
        Seq::empty()
    } else {
        seq![(value % 256) as u8] + le_bytes(value / 256, (n - 1) as nat)
    }
}

/// 256 to the power `n`.
pub open spec fn pow256(n: nat) -> nat
    decreases n,
{
    if n == 0 {
        1
    } else {
        256 * pow256((n - 1) as nat)
    }
}

/// Every power of 256 is positive.
pub proof fn lemma_pow256_positive(n: nat)
    ensures
        pow256(n) > 0,
    decreases n,
{
    if n > 0 {
        lemma_pow256_positive((n - 1) as nat);
    }
}

/// `le_bytes` yields exactly `n` digits.
pub proof fn lemma_le_bytes_len(value: nat, n: nat)
    ensures
        le_bytes(value, n).len() == n,
    decreases n,
{
    if n > 0 {
        lemma_le_bytes_len(value / 256, (n - 1) as nat);
    }
}

/// The value of a run of digits stays below the matching power of 256.
pub proof fn lemma_le_value_bound(bytes: Seq<u8>)
    ensures
        le_value(bytes) < pow256(bytes.len()),
    decreases bytes.len(),
{
    if bytes.len() > 0 {
        lemma_le_value_bound(bytes.drop_first());
    }
}

/// The remainder modulo `256 * p` splits into the lowest digit and the
/// remainder of the quotient modulo `p`.
proof fn lemma_mod_split(value: nat, p: nat)
    requires
        p > 0,
    ensures
        value % (256 * p) == value % 256 + 256 * ((value / 256) % p),
{
    let q = value / 256;
    let r = value % 256;
    let qq = q / p;
    let qr = q % p;
    assert(value == 256 * q + r);
    assert(q == p * qq + qr) by (nonlinear_arith)
        requires
            p > 0,
            qq == q / p,
            qr == q % p,
    ;
    assert(0 <= qr < p) by (nonlinear_arith)
        requires
            p > 0,
            qr == q % p,
    ;
    let low = r + 256 * qr;
    assert(value == (256 * p) * qq + low) by (nonlinear_arith)
        requires
            value == 256 * q + r,
            q == p * qq + qr,
            low == r + 256 * qr,
    ;
    assert(0 <= low < 256 * p) by (nonlinear_arith)
        requires
            0 <= r < 256,
            0 <= qr < p,
            low == r + 256 * qr,
    ;
    vstd::arithmetic::div_mod::lemma_fundamental_div_mod_converse(
        value as int,
        (256 * p) as int,
        qq as int,
        low as int,
    );
}


/// Reading back the `n` digits written for `value` gives `value` modulo
/// `256^n`.
pub proof fn lemma_le_value_of_le_bytes(value: nat, n: nat)
    ensures
        le_value(le_bytes(value, n)) == value % pow256(n),
    decreases n,
{
    if n == 0 {
    } else {
        let rest = le_bytes(value / 256, (n - 1) as nat);
        let all = le_bytes(value, n);
        lemma_le_bytes_len(value / 256, (n - 1) as nat);
        assert(all.drop_first() =~= rest);
        lemma_le_value_of_le_bytes(value / 256, (n - 1) as nat);
        let p = pow256((n - 1) as nat);
        lemma_pow256_positive((n - 1) as nat);
        lemma_mod_split(value, p);
    }
}

/// The digits written for a value that fits in `n` bytes read back as that
/// value.
pub proof fn lemma_le_round_trip(value: nat, n: nat)
    requires
        value < pow256(n),
    ensures
        le_value(le_bytes(value, n)) == value,
{
    lemma_le_value_of_le_bytes(value, n);
    lemma_pow256_positive(n);
    assert(value % pow256(n) == value) by (nonlinear_arith)
        requires
            value < pow256(n),
            pow256(n) > 0,
    ;
}

/// Writing one digit more appends the digit of the next higher place.
pub proof fn lemma_le_bytes_push(value: nat, n: nat)
    ensures
        le_bytes(value, n + 1) =~= le_bytes(value, n).push(((value / pow256(n)) % 256) as u8),
    decreases n,
{
    if n == 0 {
        assert(le_bytes(value / 256, 0) =~= Seq::<u8>::empty());
        assert(le_bytes(value, 0) =~= Seq::<u8>::empty());
        assert(pow256(0) == 1);
    } else {
        let head = seq![(value % 256) as u8];
        let shorter = le_bytes(value / 256, (n - 1) as nat);
        let p = pow256((n - 1) as nat);
        let top = (((value / 256) / p) % 256) as u8;
        lemma_le_bytes_push(value / 256, (n - 1) as nat);
        lemma_pow256_positive((n - 1) as nat);
        assert((value / 256) / p == value / (256 * p)) by (nonlinear_arith)
            requires
                p > 0,
        ;
        assert(le_bytes(value / 256, n) =~= shorter.push(top));
        assert(head + shorter.push(top) =~= (head + shorter).push(top));
    }
}

/// The powers of 256 with an exponent of at most seven fit in 56 bits.
proof fn lemma_pow256_at_most_seven(n: nat)
    requires
        n <= 7,
    ensures
        pow256(n) <= 0x100_0000_0000_0000,
{
    reveal_with_fuel(pow256, 8);
}

/// Reads `n` little-endian bytes of `bytes`, from `start` on, as a number.
pub(crate) fn le_read<const N: usize>(bytes: &[u8; N], start: usize, n: usize) -> (v: u64)
    requires
        n <= 8,
        start + n <= N,
    ensures
        v == le_value(bytes@.subrange(start as int, start + n)),
{
    let mut v: u64 = 0;
    let mut i: usize = n;
    while i > 0
        invariant
            i <= n <= 8,
            start + n <= N,
            v == le_value(bytes@.subrange(start + i, start + n)),
        decreases i,
    {
        proof {
            let tail = bytes@.subrange(start + i, start + n);
            let more = bytes@.subrange(start + i - 1, start + n);
            assert(more.drop_first() =~= tail);
            lemma_le_value_bound(tail);
            lemma_pow256_at_most_seven(tail.len());
        }
        i = i - 1;
        v = v * 256 + bytes[start + i] as u64;
    }
    v
}

/// Writes the `n` low little-endian bytes of `value` into `bytes`, from
/// `start` on.
pub(crate) fn le_write<const N: usize>(bytes: &mut [u8; N], start: usize, n: usize, value: u64)
    requires
        n <= 8,
        start + n <= N,
    ensures
        final(bytes)@.subrange(start as int, start + n) == le_bytes(value as nat, n as nat),
        forall|k: int| 0 <= k < N && !(start <= k < start + n) ==> final(bytes)@[k] == old(bytes)@[k],
{
    let mut v: u64 = value;
    let mut i: usize = 0;
    assert(pow256(0) == 1);
    assert(bytes@.subrange(start as int, start + 0) =~= le_bytes(value as nat, 0));
    while i < n
        invariant
            i <= n <= 8,
            start + n <= N,
            v == value as nat / pow256(i as nat),
            bytes@.subrange(start as int, start + i) == le_bytes(value as nat, i as nat),
            forall|k: int| 0 <= k < N && !(start <= k < start + i) ==> bytes@[k] == old(bytes)@[k],
        decreases n - i,
    {
        let ghost before = bytes@;
        bytes[start + i] = (v % 256) as u8;
        proof {
            lemma_le_bytes_push(value as nat, i as nat);
            assert(bytes@.subrange(start as int, start + i + 1) =~= before.subrange(
                start as int,
                start + i,
            ).push((v % 256) as u8));
            let p = pow256(i as nat);
            lemma_pow256_positive(i as nat);
            assert((value as nat / p) / 256 == value as nat / (256 * p)) by (nonlinear_arith)
                requires
                    p > 0,
            ;
        }
        v = v / 256;
        i = i + 1;
    }
}

/// Reads the two bytes of a 16-bit value, little-endian.
pub fn u16_from_le(bytes: &[u8; 2]) -> (v: u16)
    ensures
        v == le_value(bytes@),
{
    let v = le_read(bytes, 0, 2);
    proof {
        assert(bytes@.subrange(0, 2) =~= bytes@);
        lemma_le_value_bound(bytes@);
        reveal_with_fuel(pow256, 3);
    }
    v as u16
}

} // verus!
