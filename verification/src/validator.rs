//! The compliance rule evaluation engine: per-rule verdicts against an ESG
//! score, and the aggregate verdict over a result set.

use vstd::prelude::*;
use vstd::string::*;

use crate::clock::now_timestamp;
use crate::rules::ComplianceRule;
use crate::rules::Jurisdiction;
use crate::rules::RegulatoryFramework;
use crate::rules::RuleCategory;
use crate::scoring::ESGRating;
use crate::scoring::ESGScore;

verus! {

/// The status of a single compliance check.
#[derive(Debug, Clone, Copy, PartialEq, Eq, Structural)]
pub enum ComplianceStatus {
    Compliant,
    PartiallyCompliant,
    NonCompliant,
    Pending,
    NotApplicable,
}

impl ComplianceStatus {
    /// The display token of this status.
    pub open spec fn token(self) -> Seq<char> {
        match self {
            ComplianceStatus::Compliant => "Compliant"@,
            ComplianceStatus::PartiallyCompliant => "Partially Compliant"@,
            ComplianceStatus::NonCompliant => "Non-Compliant"@,
            ComplianceStatus::Pending => "Pending"@,
            ComplianceStatus::NotApplicable => "Not Applicable"@,
        }
    }

    /// The display token of this status.
    pub fn as_str(&self) -> (r: &'static str)
        ensures
            r@ == self.token(),
    {
        match self {
            ComplianceStatus::Compliant => "Compliant",
            ComplianceStatus::PartiallyCompliant => "Partially Compliant",
            ComplianceStatus::NonCompliant => "Non-Compliant",
            ComplianceStatus::Pending => "Pending",
            ComplianceStatus::NotApplicable => "Not Applicable",
        }
    }
}

/// The result of checking one rule: the rule's id, the verdict, a
/// human-readable message, and the evaluation timestamp (Unix seconds).
#[derive(Debug, Clone)]
pub struct ComplianceResult {
    pub rule_id: String,
    pub status: ComplianceStatus,
    pub message: String,
    pub checked_at: i64,
}

impl ComplianceResult {
    /// Create a result stamped with the current wall-clock time.
    pub fn new(rule_id: String, status: ComplianceStatus, message: String) -> (res:
        ComplianceResult)
        ensures
            res.rule_id == rule_id,
            res.status == status,
            res.message == message,
    {
        ComplianceResult { rule_id, status, message, checked_at: now_timestamp() }
    }
}

/// The verdict evaluating `rule` against a score rated `rating` at time
/// `at` earns. A rule that is not effective at `at`, or that states no
/// rating requirement, is not applicable; otherwise the verdict compares
/// the score's rating with the required one in the rating order.
pub open spec fn rule_status(rule: ComplianceRule, rating: ESGRating, at: int) -> ComplianceStatus {
    if !rule.effective_at(at) {
        ComplianceStatus::NotApplicable
    } else {
        match rule.required_esg_rating {
            Some(tok) => if rating.order() >= ESGRating::of_token(tok@).order() {
                ComplianceStatus::Compliant
            } else {
                ComplianceStatus::NonCompliant
            },
            None => ComplianceStatus::NotApplicable,
        }
    }
}

/// The message accompanying the verdict of `rule_status`.
pub open spec fn rule_message(rule: ComplianceRule, rating: ESGRating, at: int) -> Seq<char> {
    if !rule.effective_at(at) {
        "Rule not currently effective"@
    } else {
        match rule.required_esg_rating {
            Some(tok) => if rating.order() >= ESGRating::of_token(tok@).order() {
                "ESG rating "@ + rating.token() + " meets requirement"@
            } else {
                "ESG rating "@ + rating.token() + " does not meet requirement of "@ + tok@
            },
            None => "No ESG rating requirement"@,
        }
    }
}

/// What a validation result owes the rule it was produced from: the rule's
/// id, the verdict and message of the evaluation policy, and the evaluation
/// timestamp.
pub open spec fn result_matches(
    res: ComplianceResult,
    rule: ComplianceRule,
    rating: ESGRating,
    at: int,
) -> bool {
    &&& res.rule_id@ == rule.id@
    &&& res.status == rule_status(rule, rating, at)
    &&& res.message@ == rule_message(rule, rating, at)
    &&& res.checked_at == at
}

/// Whether some result in the set carries `status`.
pub open spec fn has_status(results: Seq<ComplianceResult>, status: ComplianceStatus) -> bool {
    exists|i: int| 0 <= i < results.len() && results[i].status == status
}

/// The aggregate verdict of a result set, by the fixed priority order
/// NonCompliant > Pending > PartiallyCompliant > Compliant >
/// NotApplicable: the highest-priority status present anywhere in the set
/// becomes the aggregate, and an empty or all-NotApplicable set aggregates
/// to NotApplicable.
pub open spec fn aggregate_status(results: Seq<ComplianceResult>) -> ComplianceStatus {
    if has_status(results, ComplianceStatus::NonCompliant) {
        ComplianceStatus::NonCompliant
    } else if has_status(results, ComplianceStatus::Pending) {
        ComplianceStatus::Pending
    } else if has_status(results, ComplianceStatus::PartiallyCompliant) {
        ComplianceStatus::PartiallyCompliant
    } else if has_status(results, ComplianceStatus::Compliant) {
        ComplianceStatus::Compliant
    } else {
        ComplianceStatus::NotApplicable
    }
}

/// A single non-compliant result poisons the aggregate: whatever else the
/// set holds, in whatever order and however many results, the aggregate
/// verdict is NonCompliant.
pub proof fn lemma_noncompliant_dominates(results: Seq<ComplianceResult>, i: int)
    requires
        0 <= i < results.len(),
        results[i].status == ComplianceStatus::NonCompliant,
    ensures
        aggregate_status(results) == ComplianceStatus::NonCompliant,
{
    assert(has_status(results, ComplianceStatus::NonCompliant));
}

/// Evaluate one rule against a score rated `rating` at time `at_time`.
fn evaluate_rule(rule: &ComplianceRule, rating: ESGRating, at_time: i64) -> (res: ComplianceResult)
    ensures
        result_matches(res, *rule, rating, at_time as int),
{
    if !rule.is_effective(at_time) {
        return ComplianceResult {
            rule_id: rule.id.clone(),
            status: ComplianceStatus::NotApplicable,
            message: "Rule not currently effective".to_owned(),
            checked_at: at_time,
        };
    }
    match &rule.required_esg_rating {
        Some(tok) => {
            let required = ESGRating::from_token(tok.as_str());
            if rating.at_least(required) {
                ComplianceResult {
                    rule_id: rule.id.clone(),
                    status: ComplianceStatus::Compliant,
                    message: "ESG rating ".to_owned().concat(rating.as_str()).concat(
                        " meets requirement",
                    ),
                    checked_at: at_time,
                }
            } else {
                ComplianceResult {
                    rule_id: rule.id.clone(),
                    status: ComplianceStatus::NonCompliant,
                    message: "ESG rating ".to_owned().concat(rating.as_str()).concat(
                        " does not meet requirement of ",
                    ).concat(tok.as_str()),
                    checked_at: at_time,
                }
            }
        },
        None => ComplianceResult {
            rule_id: rule.id.clone(),
            status: ComplianceStatus::NotApplicable,
            message: "No ESG rating requirement".to_owned(),
            checked_at: at_time,
        },
    }
}

/// The compliance rule evaluation engine: an ordered, append-only
/// collection of rules, evaluated in insertion order.
#[derive(Debug)]
pub struct ComplianceValidator {
    pub rules: Vec<ComplianceRule>,
}

impl ComplianceValidator {
    /// Create a validator holding no rules.
    pub fn new() -> (v: ComplianceValidator)
        ensures
            v.rules@ =~= Seq::<ComplianceRule>::empty(),
    {
        ComplianceValidator { rules: Vec::new() }
    }

    /// Append one rule to the collection.
    pub fn add_rule(&mut self, rule: ComplianceRule)
        ensures
            final(self).rules@ == old(self).rules@.push(rule),
    {
        self.rules.push(rule);
    }

    /// Append rules to the collection, keeping their order.
    pub fn add_rules(&mut self, rules: Vec<ComplianceRule>)
        ensures
            final(self).rules@ == old(self).rules@ + rules@,
    {
        let mut rules = rules;
        self.rules.append(&mut rules);
    }

    /// Evaluate the score against every held rule, in insertion order, at
    /// time `at_time` (Unix seconds): one result per rule. The caller
    /// names the jurisdiction, framework and category it is validating
    /// for; scoping rules to that context is the caller's pre-filter
    /// (`applies_to`), not a per-rule branch of the evaluation itself.
    pub fn validate_esg(
        &self,
        esg_score: &ESGScore,
        jurisdiction: Jurisdiction,
        framework: RegulatoryFramework,
        category: RuleCategory,
        at_time: i64,
    ) -> (results: Vec<ComplianceResult>)
        ensures
            results@.len() == self.rules@.len(),
            forall|j: int|
                0 <= j < results@.len() ==> result_matches(
                    #[trigger] results@[j],
                    self.rules@[j],
                    esg_score.rating,
                    at_time as int,
                ),
    {
        let rating = esg_score.rating;
        let ghost rules_seq = self.rules@;
        let mut results: Vec<ComplianceResult> = Vec::new();
        let mut i: usize = 0;
        while i < self.rules.len()
            invariant
                i <= rules_seq.len(),
                self.rules@ == rules_seq,
                results@.len() == i,
                forall|j: int|
                    0 <= j < i ==> result_matches(
                        #[trigger] results@[j],
                        rules_seq[j],
                        rating,
                        at_time as int,
                    ),
            decreases rules_seq.len() - i,
        {
            let res = evaluate_rule(&self.rules[i], rating, at_time);
            results.push(res);
            i = i + 1;
        }
        results
    }

    /// Evaluate every held rule; in this engine all rule kinds are judged
    /// by the ESG evaluation policy, so this is `validate_esg`.
    pub fn validate_all(
        &self,
        esg_score: &ESGScore,
        jurisdiction: Jurisdiction,
        framework: RegulatoryFramework,
        category: RuleCategory,
        at_time: i64,
    ) -> (results: Vec<ComplianceResult>)
        ensures
            results@.len() == self.rules@.len(),
            forall|j: int|
                0 <= j < results@.len() ==> result_matches(
                    #[trigger] results@[j],
                    self.rules@[j],
                    esg_score.rating,
                    at_time as int,
                ),
    {
        self.validate_esg(esg_score, jurisdiction, framework, category, at_time)
    }

    /// The aggregate verdict of a result set.
    pub fn overall_status(&self, results: &Vec<ComplianceResult>) -> (status: ComplianceStatus)
        ensures
            status == aggregate_status(results@),
    {
        let mut has_non_compliant = false;
        let mut has_partially_compliant = false;
        let mut has_compliant = false;
        let mut has_pending = false;
        let mut i: usize = 0;
        while i < results.len()
            invariant
                i <= results@.len(),
                has_non_compliant <==> exists|j: int|
                    0 <= j < i && results@[j].status == ComplianceStatus::NonCompliant,
                has_pending <==> exists|j: int|
                    0 <= j < i && results@[j].status == ComplianceStatus::Pending,
                has_partially_compliant <==> exists|j: int|
                    0 <= j < i && results@[j].status == ComplianceStatus::PartiallyCompliant,
                has_compliant <==> exists|j: int|
                    0 <= j < i && results@[j].status == ComplianceStatus::Compliant,
            decreases results@.len() - i,
        {
            match results[i].status {
                ComplianceStatus::NonCompliant => has_non_compliant = true,
                ComplianceStatus::PartiallyCompliant => has_partially_compliant = true,
                ComplianceStatus::Compliant => has_compliant = true,
                ComplianceStatus::Pending => has_pending = true,
                ComplianceStatus::NotApplicable => (),
            }
            i = i + 1;
        }
        if has_non_compliant {
            ComplianceStatus::NonCompliant
        } else if has_pending {
            ComplianceStatus::Pending
        } else if has_partially_compliant {
            ComplianceStatus::PartiallyCompliant
        } else if has_compliant {
            ComplianceStatus::Compliant
        } else {
            ComplianceStatus::NotApplicable
        }
    }
}

impl Default for ComplianceValidator {
    /// The default validator holds no rules.
    fn default() -> (v: ComplianceValidator)
        ensures
            v.rules@ =~= Seq::<ComplianceRule>::empty(),
    {
        ComplianceValidator { rules: Vec::new() }
    }
}

} // verus!
