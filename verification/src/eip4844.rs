//! [EIP-4844] constants and helpers.
//!
//! [EIP-4844]: https://eips.ethereum.org/EIPS/eip-4844
use crate::eip4844::limit::lemma_blob_gasprice_fits;
use vstd::prelude::*;

pub mod limit;

verus! {

/// Size a single field element in bytes.
pub const FIELD_ELEMENT_BYTES: u64 = 32;

/// How many field elements are stored in a single data blob.
pub const FIELD_ELEMENTS_PER_BLOB: u64 = 4096;

/// Gas consumption of a single data blob.
pub const DATA_GAS_PER_BLOB: u64 = 131_072u64;

/// Maximum data gas for data blobs in a single block.
pub const MAX_DATA_GAS_PER_BLOCK: u64 = 786_432u64;

/// Target data gas for data blobs in a single block.
pub const TARGET_DATA_GAS_PER_BLOCK: u64 = 393_216u64;

/// Maximum number of data blobs in a single block.
pub const MAX_BLOBS_PER_BLOCK: usize = 6;

/// Target number of data blobs in a single block.
pub const TARGET_BLOBS_PER_BLOCK: u64 = TARGET_DATA_GAS_PER_BLOCK / DATA_GAS_PER_BLOB;

/// Determines the maximum rate of change for blob fee.
pub const BLOB_GASPRICE_UPDATE_FRACTION: u64 = 3_338_477u64;

/// Minimum gas price for a data blob.
pub const BLOB_TX_MIN_BLOB_GASPRICE: u128 = 1u128;

/// Commitment version of a KZG commitment.
pub const VERSIONED_HASH_VERSION_KZG: u8 = 0x01;

/// The largest excess blob gas whose blob gas price [`calc_blob_gasprice`]
/// computes: above it, a product in the computation needs more than 128 bits.
pub const MAX_EXCESS_BLOB_GAS: u64 = 192_204_552u64;

/// The excess blob gas of a block whose parent had `parent_excess_blob_gas`
/// and used `parent_blob_gas_used`: what the two together exceed the
/// per-block target by, or zero.
pub open spec fn excess_blob_gas_spec(parent_excess_blob_gas: nat, parent_blob_gas_used: nat) -> nat {
    if parent_excess_blob_gas + parent_blob_gas_used >= TARGET_DATA_GAS_PER_BLOCK {
        (parent_excess_blob_gas + parent_blob_gas_used - TARGET_DATA_GAS_PER_BLOCK) as nat
    } else {
        0
    }
}

/// Calculates the `excess_blob_gas` from the parent header's `blob_gas_used`
/// and `excess_blob_gas`.
///
/// The sum of the two arguments has to fit in a `u64`.
pub fn calc_excess_blob_gas(parent_excess_blob_gas: u64, parent_blob_gas_used: u64) -> (excess: u64)
    requires
        parent_excess_blob_gas + parent_blob_gas_used <= u64::MAX,
    ensures
        excess == excess_blob_gas_spec(parent_excess_blob_gas as nat, parent_blob_gas_used as nat),
{
    (parent_excess_blob_gas + parent_blob_gas_used).saturating_sub(TARGET_DATA_GAS_PER_BLOCK)
}

/// How far the series that [`taylor_sum`] adds up is from its end: first the
/// number of steps during which a term may still grow, then the term itself.
pub open spec fn taylor_growth_steps(numerator: nat, denominator: nat, i: nat) -> nat {
    if denominator * i <= numerator {
        (numerator - denominator * i + 1) as nat
    } else {
        0
    }
}

/// The term that follows `accum` in the series: `accum * numerator / (denominator * i)`.
pub open spec fn taylor_next(accum: nat, numerator: nat, denominator: nat, i: nat) -> nat {
    accum * numerator / (denominator * i)
}

/// The sum of the terms of the series from `accum`, the term of index `i - 1`,
/// up to the last term that is not zero.
pub open spec fn taylor_sum(accum: nat, numerator: nat, denominator: nat, i: nat) -> nat
    decreases taylor_growth_steps(numerator, denominator, i), accum,
{
    if accum == 0 || denominator == 0 || i == 0 {
        0
    } else {
        proof {
            lemma_taylor_step_decreases(accum, numerator, denominator, i);
        }
        accum + taylor_sum(taylor_next(accum, numerator, denominator, i), numerator, denominator, i + 1)
    }
}

/// `factor * e ** (numerator / denominator)` as the truncated Taylor series
/// of EIP-4844 approximates it, in integer arithmetic.
pub open spec fn fake_exponential_spec(factor: nat, numerator: nat, denominator: nat) -> nat {
    taylor_sum(factor * denominator, numerator, denominator, 1) / denominator
}

/// Whether every intermediate value of the summation from `accum` on fits in
/// 128 bits, `output` being the sum of the terms before `accum`.
pub open spec fn taylor_fits(output: nat, accum: nat, numerator: nat, denominator: nat, i: nat) -> bool
    decreases taylor_growth_steps(numerator, denominator, i), accum,
{
    if accum == 0 || denominator == 0 || i == 0 {
        true
    } else {
        proof {
            lemma_taylor_step_decreases(accum, numerator, denominator, i);
        }
        &&& output + accum <= u128::MAX
        &&& accum * numerator <= u128::MAX
        &&& denominator * i <= u128::MAX
        &&& i < u128::MAX
        &&& taylor_fits(
            output + accum,
            taylor_next(accum, numerator, denominator, i),
            numerator,
            denominator,
            i + 1,
        )
    }
}

/// Whether [`fake_exponential`] can compute its result in 128-bit arithmetic.
pub open spec fn fake_exponential_fits(factor: nat, numerator: nat, denominator: nat) -> bool {
    taylor_fits(0, factor * denominator, numerator, denominator, 1)
}

/// From one term of the series to the next either the number of steps during
/// which terms may grow goes down, or it is zero and the term itself goes down.
pub proof fn lemma_taylor_step_decreases(accum: nat, numerator: nat, denominator: nat, i: nat)
    requires
        accum > 0,
        denominator > 0,
        i > 0,
    ensures
        taylor_growth_steps(numerator, denominator, i + 1) < taylor_growth_steps(numerator, denominator, i)
            || (taylor_growth_steps(numerator, denominator, i + 1) == 0
                && taylor_growth_steps(numerator, denominator, i) == 0
                && taylor_next(accum, numerator, denominator, i) < accum),
{
    assert(denominator * (i + 1) == denominator * i + denominator) by (nonlinear_arith);
    if denominator * i > numerator {
        let div = denominator * i;
        assert(accum * numerator < accum * div) by (nonlinear_arith)
            requires
                accum > 0,
                numerator < div,
        ;
        assert((accum * numerator) / div < accum) by (nonlinear_arith)
            requires
                accum * numerator < accum * div,
                div > 0,
        ;
    }
}

/// The next term of the series does not shrink when the term or the numerator
/// grows.
pub proof fn lemma_taylor_next_monotone(
    accum: nat,
    numerator: nat,
    larger_accum: nat,
    larger_numerator: nat,
    denominator: nat,
    i: nat,
)
    requires
        accum <= larger_accum,
        numerator <= larger_numerator,
        denominator > 0,
        i > 0,
    ensures
        taylor_next(accum, numerator, denominator, i) <= taylor_next(
            larger_accum,
            larger_numerator,
            denominator,
            i,
        ),
{
    let div = denominator * i;
    assert(div > 0) by (nonlinear_arith)
        requires
            div == denominator * i,
            denominator > 0,
            i > 0,
    ;
    assert(accum * numerator <= larger_accum * larger_numerator) by (nonlinear_arith)
        requires
            accum <= larger_accum,
            numerator <= larger_numerator,
    ;
    assert((accum * numerator) / div <= (larger_accum * larger_numerator) / div) by (nonlinear_arith)
        requires
            accum * numerator <= larger_accum * larger_numerator,
            div > 0,
    ;
}

/// A summation that fits still fits when it starts from less: from a smaller
/// sum so far, a smaller term, or with a smaller numerator.
pub proof fn lemma_taylor_fits_monotone(
    output: nat,
    accum: nat,
    numerator: nat,
    larger_output: nat,
    larger_accum: nat,
    larger_numerator: nat,
    denominator: nat,
    i: nat,
)
    requires
        output <= larger_output,
        accum <= larger_accum,
        numerator <= larger_numerator,
        taylor_fits(larger_output, larger_accum, larger_numerator, denominator, i),
    ensures
        taylor_fits(output, accum, numerator, denominator, i),
    decreases taylor_growth_steps(numerator, denominator, i), accum,
{
    if accum != 0 && denominator != 0 && i != 0 {
        lemma_taylor_step_decreases(accum, numerator, denominator, i);
        lemma_taylor_next_monotone(accum, numerator, larger_accum, larger_numerator, denominator, i);
        assert(accum * numerator <= larger_accum * larger_numerator) by (nonlinear_arith)
            requires
                accum <= larger_accum,
                numerator <= larger_numerator,
        ;
        lemma_taylor_fits_monotone(
            output + accum,
            taylor_next(accum, numerator, denominator, i),
            numerator,
            larger_output + larger_accum,
            taylor_next(larger_accum, larger_numerator, denominator, i),
            larger_numerator,
            denominator,
            i + 1,
        );
    }
}

/// One step of the summation: it fits from a term on if that term can be
/// added and multiplied within 128 bits, `next` is the term after it, and the
/// summation fits from `next` on.
pub proof fn lemma_taylor_fits_step(
    output: nat,
    accum: nat,
    numerator: nat,
    denominator: nat,
    i: nat,
    next: nat,
)
    requires
        output + accum <= u128::MAX,
        accum * numerator <= u128::MAX,
        0 < denominator * i <= u128::MAX,
        i < u128::MAX,
        next * (denominator * i) <= accum * numerator < (next + 1) * (denominator * i),
        taylor_fits(output + accum, next, numerator, denominator, i + 1),
    ensures
        taylor_fits(output, accum, numerator, denominator, i),
{
    let div = denominator * i;
    let product = accum * numerator;
    assert(product / div == next) by (nonlinear_arith)
        requires
            next * div <= product < (next + 1) * div,
            div > 0,
    ;
}

/// One step of the sum: from a term that is not zero on, it is that term plus
/// the sum from `next`, the term after it, on.
pub proof fn lemma_taylor_sum_step(accum: nat, numerator: nat, denominator: nat, i: nat, next: nat)
    requires
        accum > 0,
        i > 0,
        denominator * i > 0,
        next * (denominator * i) <= accum * numerator < (next + 1) * (denominator * i),
    ensures
        taylor_next(accum, numerator, denominator, i) == next,
        taylor_sum(accum, numerator, denominator, i) == accum + taylor_sum(
            next,
            numerator,
            denominator,
            i + 1,
        ),
{
    let div = denominator * i;
    let product = accum * numerator;
    assert(product / div == next) by (nonlinear_arith)
        requires
            next * div <= product < (next + 1) * div,
            div > 0,
    ;
    assert(denominator != 0) by (nonlinear_arith)
        requires
            denominator * i > 0,
    ;
}

/// One step of the summation, read the other way: if it fits from a term on
/// and `next` is the term after it, it fits from `next` on.
pub proof fn lemma_taylor_fits_next(
    output: nat,
    accum: nat,
    numerator: nat,
    denominator: nat,
    i: nat,
    next: nat,
)
    requires
        accum > 0,
        i > 0,
        denominator * i > 0,
        next * (denominator * i) <= accum * numerator < (next + 1) * (denominator * i),
        taylor_fits(output, accum, numerator, denominator, i),
    ensures
        taylor_fits(output + accum, next, numerator, denominator, i + 1),
{
    let div = denominator * i;
    let product = accum * numerator;
    assert(product / div == next) by (nonlinear_arith)
        requires
            next * div <= product < (next + 1) * div,
            div > 0,
    ;
    assert(denominator != 0) by (nonlinear_arith)
        requires
            denominator * i > 0,
    ;
}

/// Once `denominator * i` is above the numerator the terms only shrink, at
/// least as fast as a geometric series does. So the summation fits from there
/// on if the term at hand can be multiplied, if the index can go up by as
/// much as the term, and if `budget`, which is at least
/// `accum * denominator * i / (denominator * i - numerator)`, can be added to
/// the sum so far.
pub proof fn lemma_taylor_fits_past_growth(
    output: nat,
    accum: nat,
    numerator: nat,
    denominator: nat,
    i: nat,
    budget: nat,
)
    requires
        denominator * i > numerator,
        accum * numerator <= u128::MAX,
        denominator * (i + accum) <= u128::MAX,
        i + accum < u128::MAX,
        accum * (denominator * i) <= budget * (denominator * i - numerator),
        output + budget <= u128::MAX,
    ensures
        taylor_fits(output, accum, numerator, denominator, i),
    decreases accum,
{
    if accum != 0 && denominator != 0 && i != 0 {
        let div = denominator * i;
        let gap = (div - numerator) as nat;
        let next = taylor_next(accum, numerator, denominator, i);
        lemma_taylor_step_decreases(accum, numerator, denominator, i);
        assert(denominator * (i + 1) == div + denominator) by (nonlinear_arith)
            requires
                div == denominator * i,
        ;
        assert(next < accum);
        assert(next * div <= accum * numerator) by (nonlinear_arith)
            requires
                next == (accum * numerator) / div,
                div > 0,
        ;
        assert(accum <= budget) by (nonlinear_arith)
            requires
                accum * div <= budget * gap,
                0 < gap <= div,
        ;
        let rest = (budget - accum) as nat;
        assert(accum * numerator <= rest * gap) by (nonlinear_arith)
            requires
                accum * div <= budget * gap,
                div == gap + numerator,
                rest == budget - accum,
        ;
        assert(next <= rest) by (nonlinear_arith)
            requires
                next * div <= accum * numerator,
                accum * numerator <= rest * gap,
                0 < gap <= div,
        ;
        assert(next * (div + denominator) <= rest * (gap + denominator)) by (nonlinear_arith)
            requires
                next * div <= accum * numerator,
                accum * numerator <= rest * gap,
                next <= rest,
        ;
        assert(next * numerator <= accum * numerator) by (nonlinear_arith)
            requires
                next <= accum,
        ;
        assert(denominator * (i + 1 + next) <= denominator * (i + accum)) by (nonlinear_arith)
            requires
                next < accum,
        ;
        assert(div <= denominator * (i + accum)) by (nonlinear_arith)
            requires
                div == denominator * i,
        ;
        lemma_taylor_fits_past_growth(output + accum, next, numerator, denominator, i + 1, rest);
    }
}

/// Approximates `factor * e ** (numerator / denominator)` using Taylor expansion.
///
/// This is used to calculate the blob price. The denominator may not be zero,
/// and the summation has to fit in 128 bits.
pub fn fake_exponential(factor: u64, numerator: u64, denominator: u64) -> (result: u128)
    requires
        denominator != 0,
        fake_exponential_fits(factor as nat, numerator as nat, denominator as nat),
    ensures
        result == fake_exponential_spec(factor as nat, numerator as nat, denominator as nat),
{
    let factor = factor as u128;
    let numerator = numerator as u128;
    let denominator = denominator as u128;

    let mut i: u128 = 1;
    let mut output: u128 = 0;
    assert(factor * denominator <= u128::MAX) by (nonlinear_arith)
        requires
            factor <= u64::MAX,
            denominator <= u64::MAX,
    ;
    let mut numerator_accum = factor * denominator;
    while numerator_accum > 0
        invariant
            denominator > 0,
            i > 0,
            taylor_fits(output as nat, numerator_accum as nat, numerator as nat, denominator as nat, i as nat),
            output + taylor_sum(numerator_accum as nat, numerator as nat, denominator as nat, i as nat)
                == taylor_sum((factor * denominator) as nat, numerator as nat, denominator as nat, 1),
        decreases taylor_growth_steps(numerator as nat, denominator as nat, i as nat), numerator_accum,
    {
        proof {
            lemma_taylor_step_decreases(numerator_accum as nat, numerator as nat, denominator as nat, i as nat);
            assert(denominator * i > 0) by (nonlinear_arith)
                requires
                    denominator > 0,
                    i > 0,
            ;
        }
        output += numerator_accum;

        numerator_accum = (numerator_accum * numerator) / (denominator * i);
        i += 1;
    }
    output / denominator
}

/// Calculates the blob gas price from the header's excess blob gas field.
///
/// The excess blob gas may not be above [`MAX_EXCESS_BLOB_GAS`].
pub fn calc_blob_gasprice(excess_blob_gas: u64) -> (price: u128)
    requires
        excess_blob_gas <= MAX_EXCESS_BLOB_GAS,
    ensures
        price == fake_exponential_spec(
            BLOB_TX_MIN_BLOB_GASPRICE as nat,
            excess_blob_gas as nat,
            BLOB_GASPRICE_UPDATE_FRACTION as nat,
        ),
{
    proof {
        lemma_blob_gasprice_fits(excess_blob_gas as nat);
    }
    fake_exponential(BLOB_TX_MIN_BLOB_GASPRICE as u64, excess_blob_gas, BLOB_GASPRICE_UPDATE_FRACTION)
}

} // verus!
