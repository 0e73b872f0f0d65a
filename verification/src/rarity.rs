use vstd::prelude::*;
use vstd::arithmetic::div_mod::{
    lemma_div_denominator, lemma_div_is_ordered, lemma_div_multiples_vanish,
};
use crate::decimal::{price_text, push_price};
use crate::natural::{
    divided_by_small, lemma_power_positive, lemma_single_limb, limbs_value, power, times_small,
};

verus! {

/// The highest rarity index there is.
pub const RARITY_SCALE: u16 = 9999;

/// One sample of a price feed: at `timestamp` the price was `mantissa` with
/// the decimal exponent `scale`.
#[derive(Clone, Copy, Debug, PartialEq, Eq, Structural)]
pub struct PriceSample {
    pub timestamp: i64,
    pub mantissa: i128,
    pub scale: u32,
}

/// The digest of a text. It is what `solana_program::hash::hash` computes:
/// SHA-256.
pub uninterp spec fn digest(data: Seq<u8>) -> Seq<u8>;

/// Calls `solana_program::hash::hash`, which returns the SHA-256 digest of
/// its argument, 32 bytes. The contract gives the digest a name: it depends
/// on the bytes alone.
#[verifier::external_body]
fn sha256(data: &[u8]) -> (r: [u8; 32])
    ensures
        r@ == digest(data@),
{
    solana_program::hash::hash(data).to_bytes()
}

/// The product of all bytes of a sequence, each taken as an unsigned number.
/// A single zero byte makes it zero.
pub open spec fn byte_product(bytes: Seq<u8>) -> nat
    decreases bytes.len(),
{
    if bytes.len() == 0 {
        1
    } else {
        byte_product(bytes.drop_last()) * (bytes.last() as nat)
    }
}

/// The rarity index that a digest folds into: the product of its bytes,
/// scaled from the range of such products to the range of indices:
/// `floor(product * 9999 / 255^length)`.
pub open spec fn rarity_index(hash: Seq<u8>) -> nat {
    byte_product(hash) * (RARITY_SCALE as nat) / power(255, hash.len())
}

/// The text that is hashed for a reveal: the decimal texts of the four
/// prices, in the order BTC, the chain's own asset, ETH, BNB.
pub open spec fn rarity_preimage(
    btc: PriceSample,
    sol: PriceSample,
    eth: PriceSample,
    bnb: PriceSample,
) -> Seq<u8> {
    price_text(btc.mantissa, btc.scale) + price_text(sol.mantissa, sol.scale) + price_text(
        eth.mantissa,
        eth.scale,
    ) + price_text(bnb.mantissa, bnb.scale)
}

/// The rarity that four samples decide.
pub open spec fn rarity_of(btc: PriceSample, sol: PriceSample, eth: PriceSample, bnb: PriceSample) -> nat {
    rarity_index(digest(rarity_preimage(btc, sol, eth, bnb)))
}

/// The product of bytes is at most 255 to the power of their number.
pub proof fn lemma_byte_product_bound(bytes: Seq<u8>)
    ensures
        byte_product(bytes) <= power(255, bytes.len()),
    decreases bytes.len(),
{
    if bytes.len() > 0 {
        lemma_byte_product_bound(bytes.drop_last());
        let before = byte_product(bytes.drop_last());
        let bound = power(255, (bytes.len() - 1) as nat);
        assert(before * (bytes.last() as nat) <= 255 * bound) by (nonlinear_arith)
            requires
                before <= bound,
                bytes.last() <= 255,
        ;
    }
}

/// A rarity index is never above the scale.
pub proof fn lemma_rarity_index_bound(hash: Seq<u8>)
    ensures
        rarity_index(hash) <= RARITY_SCALE,
{
    let product = byte_product(hash);
    let range = power(255, hash.len());
    lemma_byte_product_bound(hash);
    lemma_power_positive(255, hash.len());
    assert(product * 9999 <= range * 9999) by (nonlinear_arith)
        requires
            product <= range,
    ;
    lemma_div_is_ordered((product * 9999) as int, (range * 9999) as int, range as int);
    lemma_div_multiples_vanish(9999, range as int);
}

/// A digest with a zero byte folds into the index zero.
pub proof fn lemma_zero_byte_zeroes_rarity(hash: Seq<u8>, at: int)
    requires
        0 <= at < hash.len(),
        hash[at] == 0,
    ensures
        byte_product(hash) == 0,
        rarity_index(hash) == 0,
    decreases hash.len(),
{
    if at == hash.len() - 1 {
        assert(byte_product(hash.drop_last()) * 0 == 0) by (nonlinear_arith);
    } else {
        lemma_zero_byte_zeroes_rarity(hash.drop_last(), at);
        assert(0 * (hash.last() as nat) == 0) by (nonlinear_arith);
    }
    lemma_power_positive(255, hash.len());
    assert((0int * 9999) / (power(255, hash.len()) as int) == 0) by (nonlinear_arith)
        requires
            power(255, hash.len()) > 0,
    ;
}

/// Folds a digest into its rarity index.
pub fn fold_rarity(hash: &[u8]) -> (r: u16)
    ensures
        r == rarity_index(hash@),
        r <= RARITY_SCALE,
{
    let length = hash.len();
    let mut number: Vec<u32> = Vec::new();
    number.push(RARITY_SCALE as u32);
    proof {
        assert(number@.drop_first() =~= Seq::<u32>::empty());
        assert(limbs_value(Seq::<u32>::empty()) == 0);
        assert(limbs_value(number@) == 9999);
        assert(byte_product(Seq::<u8>::empty()) == 1);
        assert(hash@.take(0) =~= Seq::<u8>::empty());
    }
    let mut i: usize = 0;
    while i < length
        invariant
            length == hash@.len(),
            i <= length,
            number@.len() == i + 1,
            limbs_value(number@) == 9999 * byte_product(hash@.take(i as int)),
        decreases length - i,
    {
        let ghost before = byte_product(hash@.take(i as int));
        number = times_small(&number, hash[i] as u32);
        proof {
            assert(hash@.take(i + 1).drop_last() =~= hash@.take(i as int));
            assert(hash@.take(i + 1).last() == hash@[i as int]);
            assert(9999 * before * (hash@[i as int] as nat) == 9999 * (before * (hash@[i as int]
                as nat))) by (nonlinear_arith);
        }
        i += 1;
    }
    let ghost product = byte_product(hash@);
    proof {
        assert(hash@.take(length as int) =~= hash@);
        assert(power(255, 0) == 1);
        assert((9999 * product) / 1 == 9999 * product);
    }
    let mut k: usize = 0;
    while k < length
        invariant
            k <= length,
            number@.len() == length + 1,
            limbs_value(number@) == (9999 * product) / power(255, k as nat),
        decreases length - k,
    {
        number = divided_by_small(&number, 255);
        proof {
            lemma_power_positive(255, k as nat);
            lemma_div_denominator((9999 * product) as int, power(255, k as nat) as int, 255);
            assert(power(255, (k + 1) as nat) == 255 * power(255, k as nat));
            assert(power(255, k as nat) * 255 == 255 * power(255, k as nat)) by (nonlinear_arith);
        }
        k += 1;
    }
    proof {
        lemma_rarity_index_bound(hash@);
        assert(product * 9999 == 9999 * product) by (nonlinear_arith);
        lemma_single_limb(number@);
    }
    number[0] as u16
}

/// Writes the text that is hashed for a reveal.
pub fn rarity_text(btc: &PriceSample, sol: &PriceSample, eth: &PriceSample, bnb: &PriceSample) -> (r:
    Vec<u8>)
    ensures
        r@ == rarity_preimage(*btc, *sol, *eth, *bnb),
{
    let mut r: Vec<u8> = Vec::new();
    push_price(&mut r, btc.mantissa, btc.scale);
    push_price(&mut r, sol.mantissa, sol.scale);
    push_price(&mut r, eth.mantissa, eth.scale);
    push_price(&mut r, bnb.mantissa, bnb.scale);
    assert(r@ =~= rarity_preimage(*btc, *sol, *eth, *bnb));
    r
}

/// Hashes the text that is written for a reveal.
pub fn hash_prices(btc: &PriceSample, sol: &PriceSample, eth: &PriceSample, bnb: &PriceSample) -> (r: [u8; 32])
    ensures
        r@ == digest(rarity_preimage(*btc, *sol, *eth, *bnb)),
{
    let text = rarity_text(btc, sol, eth, bnb);
    sha256(text.as_slice())
}

/// Derives the rarity that four samples decide: the prices are written in
/// decimal, one after the other, the text is hashed and the digest folded.
pub fn derive_rarity(btc: &PriceSample, sol: &PriceSample, eth: &PriceSample, bnb: &PriceSample) -> (r:
    u16)
    ensures
        r == rarity_of(*btc, *sol, *eth, *bnb),
        r <= RARITY_SCALE,
{
    let hash = hash_prices(btc, sol, eth, bnb);
    fold_rarity(hash.as_slice())
}

} // verus!
