//! The compliance vocabulary: regulatory frameworks, jurisdictions, rule
//! categories, severities, and the compliance rule record itself.
//!
//! Timestamps are Unix seconds. A rule with no upper effectiveness bound is
//! open-ended.

use vstd::prelude::*;
use vstd::string::*;

use crate::text::decimal_digits;
use crate::text::u32_decimal;

verus! {

/// Regulatory frameworks a rule can belong to. `Custom` is the open escape
/// variant for externally defined frameworks.
#[derive(Debug, Clone, Copy, PartialEq, Eq, Structural)]
pub enum RegulatoryFramework {
    EuSfdr,
    EuTaxonomy,
    SecClimate,
    MifidIi,
    Basel,
    Custom(u32),
}

impl RegulatoryFramework {
    /// The display name of this framework.
    pub open spec fn name_spec(self) -> Seq<char> {
        match self {
            RegulatoryFramework::EuSfdr => "EU SFDR"@,
            RegulatoryFramework::EuTaxonomy => "EU Taxonomy"@,
            RegulatoryFramework::SecClimate => "SEC Climate"@,
            RegulatoryFramework::MifidIi => "MiFID II"@,
            RegulatoryFramework::Basel => "Basel"@,
            RegulatoryFramework::Custom(id) => "Custom-"@ + decimal_digits(id as nat),
        }
    }

    /// The display name of this framework.
    pub fn name(&self) -> (r: String)
        ensures
            r@ == self.name_spec(),
    {
        match self {
            RegulatoryFramework::EuSfdr => "EU SFDR".to_owned(),
            RegulatoryFramework::EuTaxonomy => "EU Taxonomy".to_owned(),
            RegulatoryFramework::SecClimate => "SEC Climate".to_owned(),
            RegulatoryFramework::MifidIi => "MiFID II".to_owned(),
            RegulatoryFramework::Basel => "Basel".to_owned(),
            RegulatoryFramework::Custom(id) => "Custom-".to_owned().concat(
                u32_decimal(*id).as_str(),
            ),
        }
    }
}

/// Jurisdictions where compliance applies. `Global` applies everywhere;
/// `Custom` is the open escape variant.
#[derive(Debug, Clone, Copy, PartialEq, Eq, Structural)]
pub enum Jurisdiction {
    EU,
    US,
    UK,
    Brazil,
    Global,
    Custom(u32),
}

impl Jurisdiction {
    /// The code of this jurisdiction.
    pub open spec fn code_spec(self) -> Seq<char> {
        match self {
            Jurisdiction::EU => "EU"@,
            Jurisdiction::US => "US"@,
            Jurisdiction::UK => "UK"@,
            Jurisdiction::Brazil => "BR"@,
            Jurisdiction::Global => "GLOBAL"@,
            Jurisdiction::Custom(id) => "CUSTOM-"@ + decimal_digits(id as nat),
        }
    }

    /// The code of this jurisdiction.
    pub fn code(&self) -> (r: String)
        ensures
            r@ == self.code_spec(),
    {
        match self {
            Jurisdiction::EU => "EU".to_owned(),
            Jurisdiction::US => "US".to_owned(),
            Jurisdiction::UK => "UK".to_owned(),
            Jurisdiction::Brazil => "BR".to_owned(),
            Jurisdiction::Global => "GLOBAL".to_owned(),
            Jurisdiction::Custom(id) => "CUSTOM-".to_owned().concat(u32_decimal(*id).as_str()),
        }
    }
}

/// The category of a compliance rule.
#[derive(Debug, Clone, Copy, PartialEq, Eq, Structural)]
pub enum RuleCategory {
    KycAml,
    EsgDisclosure,
    InvestmentRestriction,
    Reporting,
    RiskManagement,
}

/// The severity of a compliance rule.
#[derive(Debug, Clone, Copy, PartialEq, Eq, PartialOrd, Ord, Structural)]
pub enum Severity {
    Low,
    Medium,
    High,
    Critical,
}

/// A compliance rule. Rules are immutable value records; `effective_from`
/// and `effective_until` are Unix-second timestamps, and a rule without an
/// `effective_until` is open-ended. `required_esg_rating`, when present,
/// holds a rating token ("AAA" down to "D").
#[derive(Debug, Clone)]
pub struct ComplianceRule {
    pub id: String,
    pub framework: RegulatoryFramework,
    pub jurisdiction: Jurisdiction,
    pub category: RuleCategory,
    pub severity: Severity,
    pub description: String,
    pub effective_from: i64,
    pub effective_until: Option<i64>,
    pub required_esg_rating: Option<String>,
}

impl ComplianceRule {
    /// Whether the rule is effective at time `at`: `at` lies in
    /// `[effective_from, effective_until]`, both bounds inclusive, with no
    /// upper bound when `effective_until` is absent.
    pub open spec fn effective_at(self, at: int) -> bool {
        &&& at >= self.effective_from
        &&& match self.effective_until {
            Some(until) => at <= until,
            None => true,
        }
    }

    /// Whether the rule is effective at time `at_time` (Unix seconds).
    pub fn is_effective(&self, at_time: i64) -> (r: bool)
        ensures
            r == self.effective_at(at_time as int),
    {
        at_time >= self.effective_from && (match self.effective_until {
            Some(until) => at_time <= until,
            None => true,
        })
    }

    /// Whether the rule applies in `jurisdiction`: its own jurisdiction
    /// matches, or the rule is global.
    pub fn applies_to(&self, jurisdiction: Jurisdiction) -> (r: bool)
        ensures
            r == (self.jurisdiction == jurisdiction || self.jurisdiction == Jurisdiction::Global),
    {
        self.jurisdiction == jurisdiction || self.jurisdiction == Jurisdiction::Global
    }
}

} // verus!
