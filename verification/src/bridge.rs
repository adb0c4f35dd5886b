//! The regulatory classification bridge: derives ISO 20022-style ESG
//! classification fields from a score, and assembles outgoing messages.

use vstd::prelude::*;

use crate::ids::fresh_id;
use crate::iso20022::ESGClassification;
use crate::iso20022::FinancialInstrument;
use crate::iso20022::SetrMessage;
use crate::scoring::ESGRating;
use crate::scoring::ESGScore;
use crate::validator::ComplianceResult;
use crate::validator::ComplianceStatus;

verus! {

/// EU Taxonomy alignment, in milli-percent, for an environmental sub-score
/// of `env` milli-points: zero below 60 points, the linear ramp
/// `(env - 60) * 2` from 60 up to 80 points, and the environmental value
/// itself (capped at 100) from 80 points on. The jump from 40 to 80 at the
/// 80-point boundary is deliberate policy.
pub open spec fn taxonomy_alignment_of(env: int) -> int {
    if env >= 80000 {
        if env <= 100000 {
            env
        } else {
            100000
        }
    } else if env >= 60000 {
        (env - 60000) * 2
    } else {
        0
    }
}

/// SFDR article for a rating: AAA and AA classify as Article 9, A and BBB
/// as Article 8, everything lower as Article 6.
pub open spec fn sfdr_article_of(rating: ESGRating) -> int {
    match rating {
        ESGRating::AAA => 9,
        ESGRating::AA => 9,
        ESGRating::A => 8,
        ESGRating::BBB => 8,
        _ => 6,
    }
}

/// Carbon intensity estimate, in milli-tCO2e per $M revenue, for an
/// environmental sub-score of `env` milli-points: the inverse-linear proxy
/// `500 * (1 - env/100)` points, which is `500000 - 5 * env` in
/// milli-units.
pub open spec fn carbon_intensity_of(env: int) -> int {
    500000 - 5 * env
}

/// The ids of the rules whose result is exactly Compliant, in result
/// order. Results that are PartiallyCompliant or Pending are dropped, not
/// widened: this narrowing is the bridge's documented policy.
pub open spec fn compliant_ids(results: Seq<ComplianceResult>) -> Seq<String>
    decreases results.len(),
{
    if results.len() == 0 {
        Seq::empty()
    } else if results.last().status == ComplianceStatus::Compliant {
        compliant_ids(results.drop_last()).push(results.last().rule_id)
    } else {
        compliant_ids(results.drop_last())
    }
}

/// The bridge from ESG scores and compliance results to ISO 20022-style
/// classification fields and messages.
#[derive(Debug, Clone, Copy, PartialEq, Eq, Structural)]
pub struct ISO20022Bridge;

impl ISO20022Bridge {
    /// Create a bridge.
    pub fn new() -> (b: ISO20022Bridge)
        ensures
            b == ISO20022Bridge,
    {
        ISO20022Bridge
    }

    /// EU Taxonomy alignment of the score's environmental value.
    fn calculate_taxonomy_alignment(&self, esg_score: &ESGScore) -> (r: i64)
        ensures
            r == taxonomy_alignment_of(esg_score.environmental as int),
    {
        let env = esg_score.environmental;
        if env >= 80000 {
            if env <= 100000 {
                env
            } else {
                100000
            }
        } else if env >= 60000 {
            (env - 60000) * 2
        } else {
            0
        }
    }

    /// SFDR article of the score's rating.
    fn determine_sfdr_article(&self, esg_score: &ESGScore) -> (r: u8)
        ensures
            r as int == sfdr_article_of(esg_score.rating),
    {
        match esg_score.rating {
            ESGRating::AAA => 9,
            ESGRating::AA => 9,
            ESGRating::A => 8,
            ESGRating::BBB => 8,
            _ => 6,
        }
    }

    /// Carbon intensity estimate of the score's environmental value.
    fn estimate_carbon_intensity(&self, esg_score: &ESGScore) -> (r: i64)
        requires
            i64::MIN <= 500000 - 5 * (esg_score.environmental as int) <= i64::MAX,
        ensures
            r == carbon_intensity_of(esg_score.environmental as int),
    {
        let wide: i128 = 500000 - 5 * (esg_score.environmental as i128);
        wide as i64
    }

    /// Classify a score for outgoing messages: taxonomy alignment and
    /// carbon intensity from the environmental sub-score, the SFDR article
    /// from the overall rating alone, and the rating token as text.
    pub fn esg_to_iso(&self, esg_score: &ESGScore) -> (c: ESGClassification)
        requires
            i64::MIN <= 500000 - 5 * (esg_score.environmental as int) <= i64::MAX,
        ensures
            c.taxonomy_alignment == taxonomy_alignment_of(esg_score.environmental as int),
            c.sfdr_article as int == sfdr_article_of(esg_score.rating),
            c.sfdr_article == 6 || c.sfdr_article == 8 || c.sfdr_article == 9,
            c.erc8040_rating@ == esg_score.rating.token(),
            c.carbon_intensity == carbon_intensity_of(esg_score.environmental as int),
    {
        let taxonomy_alignment = self.calculate_taxonomy_alignment(esg_score);
        let sfdr_article = self.determine_sfdr_article(esg_score);
        let carbon_intensity = self.estimate_carbon_intensity(esg_score);
        ESGClassification::new(
            taxonomy_alignment,
            sfdr_article,
            esg_score.rating.as_str().to_owned(),
            carbon_intensity,
        )
    }

    /// Project a result set down to the ids of the rules whose status is
    /// exactly Compliant, keeping their order.
    pub fn compliance_to_iso(&self, results: &Vec<ComplianceResult>) -> (ids: Vec<String>)
        ensures
            ids@ == compliant_ids(results@),
    {
        let mut ids: Vec<String> = Vec::new();
        let mut i: usize = 0;
        while i < results.len()
            invariant
                i <= results@.len(),
                ids@ == compliant_ids(results@.take(i as int)),
            decreases results@.len() - i,
        {
            proof {
                assert(results@.take(i as int + 1).drop_last() =~= results@.take(i as int));
                assert(results@.take(i as int + 1).last() == results@[i as int]);
            }
            if results[i].status == ComplianceStatus::Compliant {
                ids.push(results[i].rule_id.clone());
            }
            i = i + 1;
        }
        proof {
            assert(results@.take(results@.len() as int) =~= results@);
        }
        ids
    }

    /// Assemble a SETR message around the instrument, with the score's
    /// classification attached and a freshly generated opaque message
    /// identifier. Instrument identifiers are not validated here.
    pub fn create_setr_with_esg(
        &self,
        instrument: FinancialInstrument,
        esg_score: &ESGScore,
        quantity: i64,
        trade_date: String,
    ) -> (msg: SetrMessage)
        requires
            i64::MIN <= 500000 - 5 * (esg_score.environmental as int) <= i64::MAX,
        ensures
            msg.instrument == instrument,
            msg.quantity == quantity,
            msg.trade_date == trade_date,
            msg.esg_classification matches Some(c) && {
                &&& c.taxonomy_alignment == taxonomy_alignment_of(esg_score.environmental as int)
                &&& c.sfdr_article as int == sfdr_article_of(esg_score.rating)
                &&& c.erc8040_rating@ == esg_score.rating.token()
                &&& c.carbon_intensity == carbon_intensity_of(esg_score.environmental as int)
            },
    {
        let esg_classification = self.esg_to_iso(esg_score);
        SetrMessage {
            message_id: fresh_id(),
            instrument,
            esg_classification: Some(esg_classification),
            quantity,
            trade_date,
        }
    }
}

impl Default for ISO20022Bridge {
    /// The bridge carries no state; the default is the bridge.
    fn default() -> (b: ISO20022Bridge)
        ensures
            b == ISO20022Bridge,
    {
        ISO20022Bridge
    }
}

} // verus!
