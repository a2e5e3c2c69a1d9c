//! Numbers as bytes, least significant byte first.

use vstd::prelude::*;

verus! {

/// 256 to the power `n`.
pub open spec fn pow256(n: nat) -> nat
    decreases n,
{
    if n == 0 {
        1
    } else {
        256 * pow256((n - 1) as nat)
    }
}

/// The `n` low-order bytes of `x`, least significant first.
pub open spec fn le_bytes(x: nat, n: nat) -> Seq<u8>
    decreases n,
{
    if n == 0 {
        Seq::empty()
    } else {
        seq![(x % 256) as u8] + le_bytes(x / 256, (n - 1) as nat)
    }
}

/// The number that `bytes` spell, least significant byte first.
pub open spec fn le_value(bytes: Seq<u8>) -> nat
    decreases bytes.len(),
{
    if bytes.len() == 0 {
        0
    } else {
        bytes[0] as nat + 256 * le_value(bytes.skip(1))
    }
}

/// `le_bytes(x, n)` has `n` bytes.
pub proof fn lemma_le_bytes_len(x: nat, n: nat)
    ensures
        le_bytes(x, n).len() == n,
    decreases n,
{
    if n > 0 {
        lemma_le_bytes_len(x / 256, (n - 1) as nat);
    }
}

/// A sequence of `n` bytes spells a number below `256^n`.
pub proof fn lemma_le_value_bound(bytes: Seq<u8>)
    ensures
        le_value(bytes) < pow256(bytes.len()),
    decreases bytes.len(),
{
    if bytes.len() > 0 {
        lemma_le_value_bound(bytes.skip(1));
    }
}

/// Reading back the `n` low-order bytes of `x` gives `x` modulo `256^n`.
pub proof fn lemma_le_value_of_bytes(x: nat, n: nat)
    ensures
        le_value(le_bytes(x, n)) == x % pow256(n),
    decreases n,
{
    if n == 0 {
    } else {
        let rest = le_bytes(x / 256, (n - 1) as nat);
        let all = le_bytes(x, n);
        lemma_le_bytes_len(x / 256, (n - 1) as nat);
        lemma_le_value_of_bytes(x / 256, (n - 1) as nat);
        assert(all.skip(1) =~= rest);
        assert(all[0] == (x % 256) as u8);
        let p = pow256((n - 1) as nat);
        lemma_pow256_positive((n - 1) as nat);
        assert(x % (256 * p) == (x % 256) + 256 * ((x / 256) % p)) by {
            vstd::arithmetic::div_mod::lemma_breakdown(x as int, 256, p as int);
            vstd::arithmetic::div_mod::lemma_fundamental_div_mod(x as int, 256);
        }
    }
}

/// Writing out the number that `bytes` spell gives `bytes` back.
pub proof fn lemma_le_bytes_of_value(bytes: Seq<u8>)
    ensures
        le_bytes(le_value(bytes), bytes.len()) == bytes,
    decreases bytes.len(),
{
    if bytes.len() > 0 {
        let rest = bytes.skip(1);
        lemma_le_bytes_of_value(rest);
        let v = le_value(bytes);
        assert(v % 256 == bytes[0] as nat && v / 256 == le_value(rest)) by {
            vstd::arithmetic::div_mod::lemma_fundamental_div_mod_converse(
                v as int,
                256,
                le_value(rest) as int,
                bytes[0] as int,
            );
        }
        assert(le_bytes(v, bytes.len()) =~= bytes);
    }
}

/// Every power of 256 is positive.
pub proof fn lemma_pow256_positive(n: nat)
    ensures
        pow256(n) > 0,
    decreases n,
{
    if n > 0 {
        lemma_pow256_positive((n - 1) as nat);
    }
}

/// Sixteen bytes hold exactly the numbers of 128 bits.
pub proof fn lemma_pow256_16()
    ensures
        pow256(16) == 0x1_0000_0000_0000_0000_0000_0000_0000_0000,
{
    reveal_with_fuel(pow256, 17);
}

/// Powers of 256 grow with the exponent.
pub proof fn lemma_pow256_monotonic(m: nat, n: nat)
    requires
        m <= n,
    ensures
        pow256(m) <= pow256(n),
    decreases n,
{
    if m < n {
        lemma_pow256_monotonic(m, (n - 1) as nat);
    }
}

/// Computes [`le_bytes`] for a number of up to sixteen bytes.
pub fn to_le_bytes(x: u128, n: usize) -> (bytes: Vec<u8>)
    ensures
        bytes@ == le_bytes(x as nat, n as nat),
{
    let mut bytes: Vec<u8> = Vec::new();
    let mut rest: u128 = x;
    let mut i: usize = 0;
    while i < n
        invariant
            i <= n,
            bytes@.len() == i,
            le_bytes(x as nat, n as nat) == bytes@ + le_bytes(rest as nat, (n - i) as nat),
        decreases n - i,
    {
        let ghost before = bytes@;
        bytes.push((rest % 256) as u8);
        proof {
            let tail = le_bytes((rest / 256) as nat, (n - i - 1) as nat);
            assert(le_bytes(rest as nat, (n - i) as nat) == seq![(rest % 256) as u8] + tail);
            assert(bytes@ + tail =~= before + (seq![(rest % 256) as u8] + tail));
        }
        rest = rest / 256;
        i += 1;
    }
    assert(bytes@ + le_bytes(rest as nat, 0) =~= bytes@);
    bytes
}

} // verus!
