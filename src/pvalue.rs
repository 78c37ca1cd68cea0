use vstd::prelude::*;

verus! {

/// A p-value held exactly, as a fraction of trials.
#[derive(Clone, Copy, Debug, PartialEq, Eq, Structural)]
pub struct PValue {
    pub numerator: u64,
    pub denominator: u64,
}

/// How strongly a p-value speaks against the null hypothesis.
#[derive(Clone, Copy, Debug, PartialEq, Eq, Structural)]
pub enum Evidence {
    VeryStrong,
    Strong,
    ReasonablyStrong,
    Borderline,
    NoEvidence,
}

impl PValue {
    pub open spec fn wf(&self) -> bool {
        0 < self.denominator && self.numerator <= self.denominator
    }
}

/// The numerator of the p-value after the tail is chosen: the upper tail
/// for a non-negative observed difference, the lower one otherwise.
pub open spec fn corrected_count(exceedances: int, total: int, observed_negative: bool) -> int {
    if observed_negative {
        total - exceedances
    } else {
        exceedances
    }
}

/// The p-value of a run of `total` trials, `exceedances` of which gave a
/// difference of means above the observed one.
pub fn p_value(exceedances: u64, total: u64, observed_negative: bool) -> (r: PValue)
    requires
        0 < total,
        exceedances <= total,
    ensures
        r.wf(),
        r.denominator == total,
        r.numerator == corrected_count(exceedances as int, total as int, observed_negative),
{
    let numerator = if observed_negative {
        total - exceedances
    } else {
        exceedances
    };
    PValue { numerator, denominator: total }
}

/// The lower tail complements the upper one: for the same run, the p-value
/// taken for a negative observed difference and the one taken for a
/// non-negative difference add up to one.
pub proof fn lower_tail_complements_upper(exceedances: u64, total: u64)
    requires
        0 < total,
        exceedances <= total,
    ensures
        corrected_count(exceedances as int, total as int, true) + corrected_count(
            exceedances as int,
            total as int,
            false,
        ) == total,
{
}

/// The class of `numerator / denominator` under the thresholds 0.01,
/// 0.025, 0.05 and 0.10, each exclusive.
pub open spec fn evidence_of(numerator: int, denominator: int) -> Evidence {
    if 100 * numerator < denominator {
        Evidence::VeryStrong
    } else if 40 * numerator < denominator {
        Evidence::Strong
    } else if 20 * numerator < denominator {
        Evidence::ReasonablyStrong
    } else if 10 * numerator < denominator {
        Evidence::Borderline
    } else {
        Evidence::NoEvidence
    }
}

pub open spec fn phrase_of(e: Evidence) -> Seq<char> {
    match e {
        Evidence::VeryStrong => "very strong evidence against null hypothesis"@,
        Evidence::Strong => "strong evidence against null hypothesis"@,
        Evidence::ReasonablyStrong => "reasonably strong evidence against null hypothesis"@,
        Evidence::Borderline => "borderline evidence against null hypothesis"@,
        Evidence::NoEvidence => "no evidence against null hypothesis"@,
    }
}

impl PValue {
    pub fn classify(&self) -> (r: Evidence)
        ensures
            r == evidence_of(self.numerator as int, self.denominator as int),
    {
        let n = self.numerator as u128;
        let d = self.denominator as u128;
        if 100 * n < d {
            Evidence::VeryStrong
        } else if 40 * n < d {
            Evidence::Strong
        } else if 20 * n < d {
            Evidence::ReasonablyStrong
        } else if 10 * n < d {
            Evidence::Borderline
        } else {
            Evidence::NoEvidence
        }
    }
}

impl Evidence {
    /// The conventional wording of the class.
    pub fn phrase(&self) -> (r: String)
        ensures
            r@ == phrase_of(*self),
    {
        match self {
            Evidence::VeryStrong => "very strong evidence against null hypothesis".to_owned(),
            Evidence::Strong => "strong evidence against null hypothesis".to_owned(),
            Evidence::ReasonablyStrong => "reasonably strong evidence against null hypothesis".to_owned(),
            Evidence::Borderline => "borderline evidence against null hypothesis".to_owned(),
            Evidence::NoEvidence => "no evidence against null hypothesis".to_owned(),
        }
    }
}

} // verus!
