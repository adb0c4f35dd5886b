//! ESG scoring: weighted composite scores and the derived letter rating.
//!
//! Sub-scores are integers in milli-points (thousandths of a point), so a
//! conventional 0-100 score is carried as 0..=100_000. A composite total is
//! an exact rational `total_num / total_den` in milli-points: no rounding
//! takes place anywhere in the derivation of a rating.

use vstd::prelude::*;

verus! {

/// ESG rating levels. The declaration order is the total order of the
/// scale: D is the lowest level and AAA the highest.
#[derive(Debug, Clone, Copy, PartialEq, Eq, PartialOrd, Ord, Structural)]
pub enum ESGRating {
    D,
    C,
    CC,
    CCC,
    B,
    BB,
    BBB,
    A,
    AA,
    AAA,
}

/// Rating of the exact score `num / den` points (`den > 0`). The
/// breakpoint table of the rating scale; every band is inclusive at its
/// lower bound: 90 and above is AAA, 85 and above AA, 80 A, 70 BBB,
/// 60 BB, 50 B, 40 CCC, 30 CC, 20 C, anything lower D.
pub open spec fn rating_of_ratio(num: int, den: int) -> ESGRating
    recommends
        den > 0,
{
    if num >= 90 * den {
        ESGRating::AAA
    } else if num >= 85 * den {
        ESGRating::AA
    } else if num >= 80 * den {
        ESGRating::A
    } else if num >= 70 * den {
        ESGRating::BBB
    } else if num >= 60 * den {
        ESGRating::BB
    } else if num >= 50 * den {
        ESGRating::B
    } else if num >= 40 * den {
        ESGRating::CCC
    } else if num >= 30 * den {
        ESGRating::CC
    } else if num >= 20 * den {
        ESGRating::C
    } else {
        ESGRating::D
    }
}

impl ESGRating {
    /// Position of this rating in the total order: D is 0, AAA is 9.
    pub open spec fn order(self) -> int {
        match self {
            ESGRating::D => 0,
            ESGRating::C => 1,
            ESGRating::CC => 2,
            ESGRating::CCC => 3,
            ESGRating::B => 4,
            ESGRating::BB => 5,
            ESGRating::BBB => 6,
            ESGRating::A => 7,
            ESGRating::AA => 8,
            ESGRating::AAA => 9,
        }
    }

    /// The display token of this rating.
    pub open spec fn token(self) -> Seq<char> {
        match self {
            ESGRating::AAA => "AAA"@,
            ESGRating::AA => "AA"@,
            ESGRating::A => "A"@,
            ESGRating::BBB => "BBB"@,
            ESGRating::BB => "BB"@,
            ESGRating::B => "B"@,
            ESGRating::CCC => "CCC"@,
            ESGRating::CC => "CC"@,
            ESGRating::C => "C"@,
            ESGRating::D => "D"@,
        }
    }

    /// The rating a requirement token names: each of the ten rating
    /// tokens, "AAA" down to "D", names its own rating; any unrecognised
    /// token means D.
    pub open spec fn of_token(s: Seq<char>) -> ESGRating {
        if s == "AAA"@ {
            ESGRating::AAA
        } else if s == "AA"@ {
            ESGRating::AA
        } else if s == "A"@ {
            ESGRating::A
        } else if s == "BBB"@ {
            ESGRating::BBB
        } else if s == "BB"@ {
            ESGRating::BB
        } else if s == "B"@ {
            ESGRating::B
        } else if s == "CCC"@ {
            ESGRating::CCC
        } else if s == "CC"@ {
            ESGRating::CC
        } else if s == "C"@ {
            ESGRating::C
        } else {
            ESGRating::D
        }
    }

    /// Parse a rating token into its rating; unrecognised tokens mean D.
    pub fn from_token(token: &str) -> (r: ESGRating)
        ensures
            r == ESGRating::of_token(token@),
    {
        let t = token.to_owned();
        if t == "AAA".to_owned() {
            ESGRating::AAA
        } else if t == "AA".to_owned() {
            ESGRating::AA
        } else if t == "A".to_owned() {
            ESGRating::A
        } else if t == "BBB".to_owned() {
            ESGRating::BBB
        } else if t == "BB".to_owned() {
            ESGRating::BB
        } else if t == "B".to_owned() {
            ESGRating::B
        } else if t == "CCC".to_owned() {
            ESGRating::CCC
        } else if t == "CC".to_owned() {
            ESGRating::CC
        } else if t == "C".to_owned() {
            ESGRating::C
        } else {
            ESGRating::D
        }
    }

    /// Convert a total score, given in milli-points, to a rating.
    pub fn from_score(score_milli: i64) -> (r: ESGRating)
        ensures
            r == rating_of_ratio(score_milli as int, 1000),
    {
        if score_milli >= 90000 {
            ESGRating::AAA
        } else if score_milli >= 85000 {
            ESGRating::AA
        } else if score_milli >= 80000 {
            ESGRating::A
        } else if score_milli >= 70000 {
            ESGRating::BBB
        } else if score_milli >= 60000 {
            ESGRating::BB
        } else if score_milli >= 50000 {
            ESGRating::B
        } else if score_milli >= 40000 {
            ESGRating::CCC
        } else if score_milli >= 30000 {
            ESGRating::CC
        } else if score_milli >= 20000 {
            ESGRating::C
        } else {
            ESGRating::D
        }
    }

    /// Position of this rating in the total order, as a machine integer.
    pub fn order_index(self) -> (n: u8)
        ensures
            n as int == self.order(),
    {
        match self {
            ESGRating::D => 0,
            ESGRating::C => 1,
            ESGRating::CC => 2,
            ESGRating::CCC => 3,
            ESGRating::B => 4,
            ESGRating::BB => 5,
            ESGRating::BBB => 6,
            ESGRating::A => 7,
            ESGRating::AA => 8,
            ESGRating::AAA => 9,
        }
    }

    /// Whether this rating is at or above `other` in the rating order.
    pub fn at_least(self, other: ESGRating) -> (r: bool)
        ensures
            r == (self.order() >= other.order()),
    {
        self.order_index() >= other.order_index()
    }

    /// Whether this rating is investment grade, that is, at or above BBB.
    pub fn is_investment_grade(&self) -> (r: bool)
        ensures
            r == (self.order() >= ESGRating::BBB.order()),
    {
        matches!(self, ESGRating::AAA | ESGRating::AA | ESGRating::A | ESGRating::BBB)
    }

    /// The display token of this rating.
    pub fn as_str(&self) -> (r: &'static str)
        ensures
            r@ == self.token(),
    {
        match self {
            ESGRating::AAA => "AAA",
            ESGRating::AA => "AA",
            ESGRating::A => "A",
            ESGRating::BBB => "BBB",
            ESGRating::BB => "BB",
            ESGRating::B => "B",
            ESGRating::CCC => "CCC",
            ESGRating::CC => "CC",
            ESGRating::C => "C",
            ESGRating::D => "D",
        }
    }
}

/// An ESG score: three sub-scores in milli-points together with the derived
/// composite total and rating. The total is the exact rational
/// `total_num / total_den` in milli-points, with `total_den > 0`.
#[derive(Debug, Clone, Copy, PartialEq, Eq, Structural)]
pub struct ESGScore {
    /// Environmental sub-score, milli-points.
    pub environmental: i64,
    /// Social sub-score, milli-points.
    pub social: i64,
    /// Governance sub-score, milli-points.
    pub governance: i64,
    /// Numerator of the composite total, milli-points times `total_den`.
    pub total_num: i64,
    /// Positive denominator of the composite total.
    pub total_den: i64,
    /// Rating derived from the composite total.
    pub rating: ESGRating,
}

impl ESGScore {
    /// The total and the rating agree: the rating is the one the breakpoint
    /// table gives for the exact total. `total_num / total_den` is the total
    /// in milli-points, so the total in points is that ratio divided by 1000.
    pub open spec fn wf(self) -> bool {
        &&& self.total_den > 0
        &&& self.rating == rating_of_ratio(self.total_num as int, 1000 * self.total_den)
    }

    /// Create a score whose total is the arithmetic mean of the three
    /// sub-scores (all in milli-points).
    pub fn new(environmental: i64, social: i64, governance: i64) -> (score: ESGScore)
        requires
            i64::MIN <= environmental + social + governance <= i64::MAX,
        ensures
            score.environmental == environmental,
            score.social == social,
            score.governance == governance,
            score.total_num == environmental + social + governance,
            score.total_den == 3,
            score.wf(),
    {
        let num_wide: i128 = environmental as i128 + social as i128 + governance as i128;
        let num: i64 = num_wide as i64;
        let rating = rating_of_frac(num as i128, 3000);
        ESGScore {
            environmental,
            social,
            governance,
            total_num: num,
            total_den: 3,
            rating,
        }
    }

    /// Whether this score's rating is investment grade (BBB or above).
    pub fn is_investment_grade(&self) -> (r: bool)
        ensures
            r == (self.rating.order() >= ESGRating::BBB.order()),
    {
        self.rating.is_investment_grade()
    }
}

/// Rating of the exact rational score `num / den` milli-points.
/// `den` is `1000` times the weight denominator, so the bound on `den`
/// leaves room for the `90 * den` breakpoint product.
fn rating_of_frac(num: i128, den: i128) -> (r: ESGRating)
    requires
        0 < den <= 0x1000_0000_0000_0000_0000_0000,
    ensures
        r == rating_of_ratio(num as int, den as int),
{
    if num >= 90 * den {
        ESGRating::AAA
    } else if num >= 85 * den {
        ESGRating::AA
    } else if num >= 80 * den {
        ESGRating::A
    } else if num >= 70 * den {
        ESGRating::BBB
    } else if num >= 60 * den {
        ESGRating::BB
    } else if num >= 50 * den {
        ESGRating::B
    } else if num >= 40 * den {
        ESGRating::CCC
    } else if num >= 30 * den {
        ESGRating::CC
    } else if num >= 20 * den {
        ESGRating::C
    } else {
        ESGRating::D
    }
}

/// Ratings grow with the score: a lower score never earns a higher rating.
/// Stated for exact rational scores over a common positive denominator,
/// which covers every total this crate derives.
pub proof fn lemma_rating_monotonic(num1: int, num2: int, den: int)
    requires
        den > 0,
        num1 <= num2,
    ensures
        rating_of_ratio(num1, den).order() <= rating_of_ratio(num2, den).order(),
{
}

/// ESG scoring calculator. The weight of each pillar is the exact rational
/// `<pillar>_weight / weight_total`; a well-formed calculator has
/// `weight_total` equal to the sum of the three numerators, so the three
/// weights always sum to exactly 1.
#[derive(Debug, Clone, Copy, PartialEq, Eq, Structural)]
pub struct ESGScoring {
    /// Numerator of the environmental weight.
    pub environmental_weight: i64,
    /// Numerator of the social weight.
    pub social_weight: i64,
    /// Numerator of the governance weight.
    pub governance_weight: i64,
    /// Common denominator of the three weights.
    pub weight_total: i64,
}

impl ESGScoring {
    /// The weights are non-negative and sum to exactly 1: the denominator
    /// is the sum of the numerators and is positive.
    pub open spec fn wf(self) -> bool {
        &&& self.environmental_weight >= 0
        &&& self.social_weight >= 0
        &&& self.governance_weight >= 0
        &&& self.weight_total == self.environmental_weight + self.social_weight
            + self.governance_weight
        &&& self.weight_total > 0
    }

    /// The normalized form of a weight triple: the same numerators over the
    /// denominator that makes the weights sum to exactly 1.
    pub open spec fn spec_normalize(self) -> ESGScoring {
        ESGScoring {
            environmental_weight: self.environmental_weight,
            social_weight: self.social_weight,
            governance_weight: self.governance_weight,
            weight_total: (self.environmental_weight + self.social_weight
                + self.governance_weight) as i64,
        }
    }

    /// Create a calculator with equal weights.
    pub fn new() -> (scoring: ESGScoring)
        ensures
            scoring == (ESGScoring {
                environmental_weight: 1,
                social_weight: 1,
                governance_weight: 1,
                weight_total: 3,
            }),
            scoring.wf(),
    {
        ESGScoring { environmental_weight: 1, social_weight: 1, governance_weight: 1, weight_total: 3 }
    }

    /// Create a calculator from raw weights, which must be valid:
    /// non-negative and not all zero.
    pub fn with_weights(
        environmental_weight: i64,
        social_weight: i64,
        governance_weight: i64,
    ) -> (scoring: ESGScoring)
        requires
            environmental_weight >= 0,
            social_weight >= 0,
            governance_weight >= 0,
            0 < environmental_weight + social_weight + governance_weight <= i64::MAX,
        ensures
            scoring.environmental_weight == environmental_weight,
            scoring.social_weight == social_weight,
            scoring.governance_weight == governance_weight,
            scoring.weight_total == environmental_weight + social_weight + governance_weight,
            scoring.wf(),
    {
        match Self::try_with_weights(environmental_weight, social_weight, governance_weight) {
            Ok(scoring) => scoring,
            Err(_) => {
                proof {
                    assert(false);
                }
                Self::new()
            },
        }
    }

    /// Create a calculator from raw weights, normalizing them so they sum
    /// to 1. Fails with an error exactly when a weight is negative or when
    /// the weights sum to zero; no score is ever computed from a rejected
    /// configuration.
    pub fn try_with_weights(
        environmental_weight: i64,
        social_weight: i64,
        governance_weight: i64,
    ) -> (result: Result<ESGScoring, String>)
        requires
            environmental_weight + social_weight + governance_weight <= i64::MAX,
        ensures
            (environmental_weight >= 0 && social_weight >= 0 && governance_weight >= 0
                && environmental_weight + social_weight + governance_weight > 0)
                <==> result is Ok,
            result matches Ok(scoring) ==> {
                &&& scoring.environmental_weight == environmental_weight
                &&& scoring.social_weight == social_weight
                &&& scoring.governance_weight == governance_weight
                &&& scoring.weight_total == environmental_weight + social_weight
                    + governance_weight
                &&& scoring.wf()
            },
            (environmental_weight < 0 || social_weight < 0 || governance_weight < 0)
                ==> (result matches Err(m) && m@ == "ESG weights must be non-negative"@),
            (environmental_weight >= 0 && social_weight >= 0 && governance_weight >= 0
                && environmental_weight + social_weight + governance_weight == 0)
                ==> (result matches Err(m) && m@ == "ESG weights must sum to > 0"@),
    {
        if environmental_weight < 0 || social_weight < 0 || governance_weight < 0 {
            return Err("ESG weights must be non-negative".to_owned());
        }
        let total = environmental_weight + social_weight + governance_weight;
        if total <= 0 {
            return Err("ESG weights must sum to > 0".to_owned());
        }
        Ok(
            ESGScoring {
                environmental_weight,
                social_weight,
                governance_weight,
                weight_total: total,
            },
        )
    }

    /// Re-normalize this weight triple so the weights sum to exactly 1.
    pub fn normalized(&self) -> (scoring: ESGScoring)
        requires
            self.environmental_weight + self.social_weight + self.governance_weight
                <= i64::MAX,
            i64::MIN <= self.environmental_weight + self.social_weight
                + self.governance_weight,
        ensures
            scoring == self.spec_normalize(),
    {
        let total_wide: i128 = self.environmental_weight as i128 + self.social_weight as i128
            + self.governance_weight as i128;
        ESGScoring { weight_total: total_wide as i64, ..*self }
    }

    /// Calculate the composite score of three sub-scores (milli-points).
    /// The total is the exact weighted sum `sum(sub-score * weight)`, and,
    /// because valid weights sum to 1, it always lies between the smallest
    /// and the largest sub-score.
    pub fn calculate(&self, environmental: i64, social: i64, governance: i64) -> (score: ESGScore)
        requires
            self.wf(),
            i64::MIN <= environmental * self.environmental_weight
                + social * self.social_weight + governance * self.governance_weight
                <= i64::MAX,
        ensures
            score.environmental == environmental,
            score.social == social,
            score.governance == governance,
            score.total_num == environmental * self.environmental_weight
                + social * self.social_weight + governance * self.governance_weight,
            score.total_den == self.weight_total,
            score.wf(),
            min3(environmental as int, social as int, governance as int) * self.weight_total
                <= score.total_num,
            score.total_num <= max3(environmental as int, social as int, governance as int)
                * self.weight_total,
    {
        proof {
            lemma_product_fits(environmental as int, self.environmental_weight as int);
            lemma_product_fits(social as int, self.social_weight as int);
            lemma_product_fits(governance as int, self.governance_weight as int);
        }
        let num_wide: i128 = environmental as i128 * self.environmental_weight as i128
            + social as i128 * self.social_weight as i128
            + governance as i128 * self.governance_weight as i128;
        let num: i64 = num_wide as i64;
        let den_wide: i128 = 1000 * self.weight_total as i128;
        let rating = rating_of_frac(num as i128, den_wide);
        proof {
            lemma_weighted_sum_bounds(
                environmental as int,
                social as int,
                governance as int,
                self.environmental_weight as int,
                self.social_weight as int,
                self.governance_weight as int,
            );
        }
        ESGScore {
            environmental,
            social,
            governance,
            total_num: num,
            total_den: self.weight_total,
            rating,
        }
    }
}

/// The smallest of three values.
pub open spec fn min3(a: int, b: int, c: int) -> int {
    if a <= b && a <= c {
        a
    } else if b <= c {
        b
    } else {
        c
    }
}

/// The largest of three values.
pub open spec fn max3(a: int, b: int, c: int) -> int {
    if a >= b && a >= c {
        a
    } else if b >= c {
        b
    } else {
        c
    }
}

/// The product of a machine integer and a non-negative machine-integer
/// weight stays well inside the range of the double-width integers the
/// weighted sum is computed in.
proof fn lemma_product_fits(x: int, w: int)
    requires
        -0x8000_0000_0000_0000 <= x <= 0x7fff_ffff_ffff_ffff,
        0 <= w <= 0x7fff_ffff_ffff_ffff,
    ensures
        -0x4000_0000_0000_0000_0000_0000_0000_0000 <= x * w
            <= 0x4000_0000_0000_0000_0000_0000_0000_0000,
{
    assert(-0x4000_0000_0000_0000_0000_0000_0000_0000 <= x * w
        <= 0x4000_0000_0000_0000_0000_0000_0000_0000) by (nonlinear_arith)
        requires
            -0x8000_0000_0000_0000 <= x <= 0x7fff_ffff_ffff_ffff,
            0 <= w <= 0x7fff_ffff_ffff_ffff,
    ;
}

/// A weighted sum with non-negative weights lies between the smallest and
/// the largest of the values, each scaled by the weight sum. Dividing by
/// the weight sum: the weighted mean lies within [min, max] of the values.
pub proof fn lemma_weighted_sum_bounds(e: int, s: int, g: int, we: int, ws: int, wg: int)
    requires
        we >= 0,
        ws >= 0,
        wg >= 0,
    ensures
        min3(e, s, g) * (we + ws + wg) <= e * we + s * ws + g * wg,
        e * we + s * ws + g * wg <= max3(e, s, g) * (we + ws + wg),
{
    let lo = min3(e, s, g);
    let hi = max3(e, s, g);
    assert(lo * (we + ws + wg) <= e * we + s * ws + g * wg) by (nonlinear_arith)
        requires
            we >= 0,
            ws >= 0,
            wg >= 0,
            lo <= e,
            lo <= s,
            lo <= g,
    ;
    assert(e * we + s * ws + g * wg <= hi * (we + ws + wg)) by (nonlinear_arith)
        requires
            we >= 0,
            ws >= 0,
            wg >= 0,
            e <= hi,
            s <= hi,
            g <= hi,
    ;
}

/// Normalization is idempotent: re-normalizing an already-normalized weight
/// triple gives it back unchanged. In particular every well-formed
/// calculator, whose weights already sum to 1, is its own normalized form.
pub proof fn lemma_normalize_idempotent(scoring: ESGScoring)
    ensures
        scoring.spec_normalize().spec_normalize() == scoring.spec_normalize(),
        scoring.wf() ==> scoring.spec_normalize() == scoring,
{
}

impl Default for ESGScoring {
    /// The default calculator weighs the three pillars equally.
    fn default() -> (scoring: ESGScoring)
        ensures
            scoring == (ESGScoring {
                environmental_weight: 1,
                social_weight: 1,
                governance_weight: 1,
                weight_total: 3,
            }),
    {
        ESGScoring::new()
    }
}

} // verus!
