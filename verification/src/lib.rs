//! Compliance rule evaluation, ESG scoring, and ISO 20022-style
//! classification for ESG-linked financial instruments.
//!
//! Scores and rates are carried as integers in thousandths of a point
//! (milli-points), so that every derivation in this crate is exact.

use vstd::prelude::*;

pub mod bridge;
pub mod categories;
mod clock;
mod ids;
pub mod iso20022;
pub mod oracle;
pub mod rules;
pub mod scoring;
mod text;
pub mod validator;

pub use bridge::ISO20022Bridge;
pub use categories::ESGCategory;
pub use categories::EnvironmentalMetrics;
pub use categories::GovernanceMetrics;
pub use categories::SocialMetrics;
pub use iso20022::CamtMessage;
pub use iso20022::ESGClassification;
pub use iso20022::ESGPurpose;
pub use iso20022::FinancialInstrument;
pub use iso20022::ISO20022MessageType;
pub use iso20022::PainMessage;
pub use iso20022::SetrMessage;
pub use oracle::MockOracleProvider;
pub use oracle::OracleData;
pub use oracle::OracleDataType;
pub use oracle::OracleProvider;
pub use oracle::OracleRequest;
pub use oracle::OracleResponse;
pub use rules::ComplianceRule;
pub use rules::Jurisdiction;
pub use rules::RegulatoryFramework;
pub use rules::RuleCategory;
pub use rules::Severity;

pub use scoring::ESGRating;
pub use scoring::ESGScore;
pub use scoring::ESGScoring;
pub use validator::ComplianceResult;
pub use validator::ComplianceStatus;
pub use validator::ComplianceValidator;

verus! {

pub const VERSION: &'static str = "0.1.0";

pub const STANDARD_ID: &'static str = "ERC-8040";

} // verus!
