//! The three ESG pillars and their raw metric records.
//!
//! Metric values are integers in milli-units (thousandths): a percentage of
//! 42.5 is carried as 42_500.

use vstd::prelude::*;

verus! {

/// The three ESG pillars.
#[derive(Debug, Clone, Copy, PartialEq, Eq, Structural)]
pub enum ESGCategory {
    Environmental,
    Social,
    Governance,
}

impl ESGCategory {
    /// The one-letter code of this pillar.
    pub open spec fn code_spec(self) -> Seq<char> {
        match self {
            ESGCategory::Environmental => "E"@,
            ESGCategory::Social => "S"@,
            ESGCategory::Governance => "G"@,
        }
    }

    /// The one-letter code of this pillar.
    pub fn code(&self) -> (r: &'static str)
        ensures
            r@ == self.code_spec(),
    {
        match self {
            ESGCategory::Environmental => "E",
            ESGCategory::Social => "S",
            ESGCategory::Governance => "G",
        }
    }
}

/// Raw environmental metrics, in milli-units.
#[derive(Debug, Clone, Copy, PartialEq, Eq, Structural)]
pub struct EnvironmentalMetrics {
    /// Carbon footprint in milli-metric-tons CO2e.
    pub carbon_footprint: i64,
    /// Renewable energy share, milli-percent (0..=100_000).
    pub renewable_energy_pct: i64,
    /// Water usage in milli-cubic-meters.
    pub water_usage: i64,
    /// Waste reduction against the baseline, milli-percent (0..=100_000).
    pub waste_reduction_pct: i64,
}

impl Default for EnvironmentalMetrics {
    /// All metrics start at zero.
    fn default() -> (m: EnvironmentalMetrics)
        ensures
            m == (EnvironmentalMetrics {
                carbon_footprint: 0,
                renewable_energy_pct: 0,
                water_usage: 0,
                waste_reduction_pct: 0,
            }),
    {
        EnvironmentalMetrics {
            carbon_footprint: 0,
            renewable_energy_pct: 0,
            water_usage: 0,
            waste_reduction_pct: 0,
        }
    }
}

/// Raw social metrics, in milli-units.
#[derive(Debug, Clone, Copy, PartialEq, Eq, Structural)]
pub struct SocialMetrics {
    /// Labor standards score, milli-points (0..=100_000).
    pub labor_standards_score: i64,
    /// Community investment amount or score, milli-units.
    pub community_investment: i64,
    /// Diversity index, milli-points (0..=100_000).
    pub diversity_index: i64,
}

impl Default for SocialMetrics {
    /// All metrics start at zero.
    fn default() -> (m: SocialMetrics)
        ensures
            m == (SocialMetrics {
                labor_standards_score: 0,
                community_investment: 0,
                diversity_index: 0,
            }),
    {
        SocialMetrics { labor_standards_score: 0, community_investment: 0, diversity_index: 0 }
    }
}

/// Raw governance metrics, in milli-units.
#[derive(Debug, Clone, Copy, PartialEq, Eq, Structural)]
pub struct GovernanceMetrics {
    /// Board independence, milli-percent (0..=100_000).
    pub board_independence_pct: i64,
    /// Transparency score, milli-points (0..=100_000).
    pub transparency_score: i64,
    /// Anti-corruption score, milli-points (0..=100_000).
    pub anti_corruption_score: i64,
}

impl Default for GovernanceMetrics {
    /// All metrics start at zero.
    fn default() -> (m: GovernanceMetrics)
        ensures
            m == (GovernanceMetrics {
                board_independence_pct: 0,
                transparency_score: 0,
                anti_corruption_score: 0,
            }),
    {
        GovernanceMetrics {
            board_independence_pct: 0,
            transparency_score: 0,
            anti_corruption_score: 0,
        }
    }
}

} // verus!
