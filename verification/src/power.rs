use multiversx_sc::types::BigUint;
use multiversx_sc_scenario::api::StaticApi;
use vstd::prelude::*;

verus! {

/// `root` is the integer square root of `value`: the largest number whose
/// square does not exceed it.
pub open spec fn is_integer_sqrt(value: nat, root: nat) -> bool {
    root * root <= value && value < (root + 1) * (root + 1)
}

/// The number that a big-endian byte string denotes; the empty string denotes zero.
pub open spec fn be_value(bytes: Seq<u8>) -> nat
    decreases bytes.len(),
{
    if bytes.len() == 0 {
        0
    } else {
        be_value(bytes.drop_last()) * 256 + bytes.last() as nat
    }
}

/// A byte string denotes at least what any of its prefixes denotes.
pub proof fn lemma_be_value_prefix(bytes: Seq<u8>, n: int)
    requires
        0 <= n <= bytes.len(),
    ensures
        be_value(bytes.take(n)) <= be_value(bytes),
    decreases bytes.len(),
{
    if n == bytes.len() {
        assert(bytes.take(n) =~= bytes);
    } else {
        lemma_be_value_prefix(bytes.drop_last(), n);
        assert(bytes.drop_last().take(n) =~= bytes.take(n));
    }
}

/// The integer square root never exceeds the number itself.
pub proof fn lemma_integer_sqrt_bounded(value: nat, root: nat)
    requires
        is_integer_sqrt(value, root),
    ensures
        root <= value,
{
    assert(root <= root * root) by (nonlinear_arith);
}

/// Reads a big-endian byte string as a number, if it fits in 128 bits.
pub fn be_bytes_to_u128(bytes: &Vec<u8>) -> (value: Option<u128>)
    ensures
        match value {
            Some(v) => v == be_value(bytes@),
            None => be_value(bytes@) > u128::MAX,
        },
{
    let mut acc: u128 = 0;
    let mut i: usize = 0;
    while i < bytes.len()
        invariant
            0 <= i <= bytes.len(),
            acc == be_value(bytes@.take(i as int)),
        decreases bytes.len() - i,
    {
        let b: u128 = bytes[i] as u128;
        proof {
            let next = bytes@.take(i + 1);
            assert(next.drop_last() =~= bytes@.take(i as int));
            assert(next.last() == bytes@[i as int]);
            assert(be_value(next) == acc * 256 + b);
            lemma_be_value_prefix(bytes@, i + 1);
        }
        if acc > (u128::MAX - b) / 256 {
            return None;
        }
        acc = acc * 256 + b;
        i = i + 1;
    }
    proof {
        assert(bytes@.take(i as int) =~= bytes@);
    }
    Some(acc)
}

/// Calls `BigUint::sqrt` of `multiversx_sc` on `value` and hands back the
/// root as `BigUint::to_bytes_be` writes it. Trusted: the bytes denote, big
/// end first, the truncated square root of `value`.
#[verifier::external_body]
fn biguint_sqrt_be(value: u128) -> (root: Vec<u8>)
    ensures
        is_integer_sqrt(value as nat, be_value(root@)),
{
    BigUint::<StaticApi>::from(value).sqrt().to_bytes_be().into_vec()
}

/// The voting power that `energy` gives: its integer square root.
pub fn voting_power(energy: u128) -> (power: u128)
    ensures
        is_integer_sqrt(energy as nat, power as nat),
        power <= energy,
{
    let root = biguint_sqrt_be(energy);
    proof {
        lemma_integer_sqrt_bounded(energy as nat, be_value(root@));
    }
    be_bytes_to_u128(&root).unwrap()
}

} // verus!
