//! The human index: a fixed-point score computed from the verification
//! results of a user and the public weights of the scoring formula.
use vstd::prelude::*;

verus! {

/// Fixed-point scale: 10 000 stands for 1.0 (four decimal places).
pub const SCALE: u32 = 10_000;

/// The largest value of the index (the formula maps a sum of 1.0 to 255).
pub const INDEX_RANGE: u32 = 255;

/// Public inputs of the scoring formula, in fixed point.
#[derive(Clone, Copy, Debug, PartialEq, Eq, Structural)]
pub struct HumanIndexPublicInputs {
    /// Base weight (0.15 is written 1500).
    pub w1: u32,
    /// Weight of the recaptcha score.
    pub w2: u32,
    /// Weight of a verified phone number.
    pub w3: u32,
    /// Weight of a verified biometric check.
    pub w4: u32,
    /// The index the requester expects.
    pub expected_output: u32,
}

/// All public values committed to a proof.
#[derive(Clone, Copy, Debug, PartialEq, Eq, Structural)]
pub struct PublicValues {
    pub inputs: HumanIndexPublicInputs,
    pub computed_output: u32,
}

/// Private inputs: the results of the verification steps.
#[derive(Clone, Copy, Debug, PartialEq, Eq, Structural)]
pub struct VerificationResults {
    /// Fixed point, 0 to 10 000 for 0.0 to 1.0.
    pub recaptcha_score: u32,
    /// 0 or 1.
    pub sms_verified: u32,
    /// 0 or 1.
    pub bio_verified: u32,
}

/// The weighted sum `W1 + W2 * score + W3 * sms + W4 * bio`, in fixed point
/// (the product of two fixed-point values is scaled back, rounding down).
pub open spec fn weighted_sum(v: VerificationResults, p: HumanIndexPublicInputs) -> nat {
    p.w1 as nat + (p.w2 as nat * v.recaptcha_score as nat) / (SCALE as nat) + p.w3 as nat
        * v.sms_verified as nat + p.w4 as nat * v.bio_verified as nat
}

/// The human index: 0 when the recaptcha score is 0, else
/// `floor(weighted_sum * 255 / SCALE)`.
pub open spec fn human_index(v: VerificationResults, p: HumanIndexPublicInputs) -> nat {
    if v.recaptcha_score == 0 {
        0
    } else {
        (weighted_sum(v, p) * (INDEX_RANGE as nat)) / (SCALE as nat)
    }
}

/// The index computed over `u128`, where no intermediate value can overflow.
fn wide_human_index(v: &VerificationResults, p: &HumanIndexPublicInputs) -> (r: u128)
    ensures
        r as nat == human_index(*v, *p),
{
    if v.recaptcha_score == 0 {
        return 0;
    }
    let score = v.recaptcha_score as u128;
    let sms = v.sms_verified as u128;
    let bio = v.bio_verified as u128;
    proof {
        lemma_product_bound(p.w2 as nat, v.recaptcha_score as nat);
        lemma_product_bound(p.w3 as nat, v.sms_verified as nat);
        lemma_product_bound(p.w4 as nat, v.bio_verified as nat);
    }
    let part2 = (p.w2 as u128 * score) / (SCALE as u128);
    let sum = p.w1 as u128 + part2 + p.w3 as u128 * sms + p.w4 as u128 * bio;
    assert(sum as nat == weighted_sum(*v, *p));
    assert(sum * 255 <= u128::MAX) by {
        assert(sum < 4 * 0x1_0000_0000_0000_0000);
    }
    (sum * (INDEX_RANGE as u128)) / (SCALE as u128)
}

proof fn lemma_product_bound(a: nat, b: nat)
    requires
        a <= u32::MAX,
        b <= u32::MAX,
    ensures
        a * b < 0x1_0000_0000_0000_0000,
{
    assert(a * b <= u32::MAX as nat * u32::MAX as nat) by (nonlinear_arith)
        requires
            a <= u32::MAX,
            b <= u32::MAX,
    ;
}

/// Computes the human index of `verification_results` under the weights of
/// `public_inputs`.
pub fn calculate_human_index(
    verification_results: &VerificationResults,
    public_inputs: &HumanIndexPublicInputs,
) -> (r: u32)
    requires
        human_index(*verification_results, *public_inputs) <= u32::MAX,
    ensures
        r as nat == human_index(*verification_results, *public_inputs),
{
    wide_human_index(verification_results, public_inputs) as u32
}

/// The human index when it fits in a `u32`, else `None`.
pub fn checked_human_index(
    verification_results: &VerificationResults,
    public_inputs: &HumanIndexPublicInputs,
) -> (r: Option<u32>)
    ensures
        r.is_some() <==> human_index(*verification_results, *public_inputs) <= u32::MAX,
        r matches Some(x) ==> x as nat == human_index(*verification_results, *public_inputs),
{
    let wide = wide_human_index(verification_results, public_inputs);
    if wide <= u32::MAX as u128 {
        Some(wide as u32)
    } else {
        None
    }
}

/// A zero recaptcha score gives an index of zero, whatever the other inputs.
pub proof fn lemma_zero_score_gives_zero(v: VerificationResults, p: HumanIndexPublicInputs)
    requires
        v.recaptcha_score == 0,
    ensures
        human_index(v, p) == 0,
{
}

/// With every input in its documented range (weights and score at most 1.0,
/// the two flags 0 or 1) the index fits in a `u32`, so
/// `calculate_human_index` can always be called on such inputs.
pub proof fn lemma_index_fits_in_range(v: VerificationResults, p: HumanIndexPublicInputs)
    requires
        v.recaptcha_score <= SCALE,
        v.sms_verified <= 1,
        v.bio_verified <= 1,
        p.w1 <= SCALE,
        p.w2 <= SCALE,
        p.w3 <= SCALE,
        p.w4 <= SCALE,
    ensures
        human_index(v, p) <= 4 * INDEX_RANGE,
{
    assert(p.w2 as nat * v.recaptcha_score as nat <= 10_000 * 10_000) by (nonlinear_arith)
        requires
            p.w2 <= 10_000,
            v.recaptcha_score <= 10_000,
    ;
    assert(p.w3 as nat * v.sms_verified as nat <= 10_000) by (nonlinear_arith)
        requires
            p.w3 <= 10_000,
            v.sms_verified <= 1,
    ;
    assert(p.w4 as nat * v.bio_verified as nat <= 10_000) by (nonlinear_arith)
        requires
            p.w4 <= 10_000,
            v.bio_verified <= 1,
    ;
    assert(weighted_sum(v, p) <= 40_000);
    let s = weighted_sum(v, p);
    assert((s * 255) / 10_000 <= 1020) by (nonlinear_arith)
        requires
            s <= 40_000,
    ;
}

} // verus!
