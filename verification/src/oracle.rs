//! The oracle data-retrieval abstraction: a black-box supplier of scores
//! and status flags, plus a deterministic mock supplier.

use vstd::prelude::*;

use crate::clock::now_timestamp;
use crate::ids::fresh_id;
use crate::scoring::ESGScore;

verus! {

/// The kinds of data an oracle can be asked for.
#[derive(Debug, Clone, Copy, PartialEq, Eq, Structural)]
pub enum OracleDataType {
    ESGScore,
    CarbonEmissions,
    RegulatoryStatus,
    SanctionsCheck,
    CreditRating,
}

/// A request to an oracle, stamped with a fresh opaque id and the current
/// wall-clock time (Unix seconds).
#[derive(Debug, Clone)]
pub struct OracleRequest {
    pub id: String,
    pub data_type: OracleDataType,
    pub entity_id: String,
    pub requested_at: i64,
}

impl OracleRequest {
    /// Create a request for `data_type` about the entity `entity_id`.
    pub fn new(data_type: OracleDataType, entity_id: String) -> (req: OracleRequest)
        ensures
            req.data_type == data_type,
            req.entity_id == entity_id,
    {
        OracleRequest { id: fresh_id(), data_type, entity_id, requested_at: now_timestamp() }
    }
}

/// Data returned by an oracle. Emission values are in milli-units.
#[derive(Debug, Clone)]
pub enum OracleData {
    ESGScore(ESGScore),
    CarbonEmissions(i64),
    RegulatoryStatus(bool),
    SanctionsCheck(bool),
    CreditRating(String),
}

/// A response from an oracle, stamped with the current wall-clock time
/// (Unix seconds).
#[derive(Debug, Clone)]
pub struct OracleResponse {
    pub request_id: String,
    pub data: OracleData,
    pub timestamp: i64,
    pub signature: Option<String>,
}

impl OracleResponse {
    /// Wrap oracle data in an unsigned response to request `request_id`.
    pub fn new(request_id: String, data: OracleData) -> (res: OracleResponse)
        ensures
            res.request_id == request_id,
            res.data == data,
            res.signature is None,
    {
        OracleResponse { request_id, data, timestamp: now_timestamp(), signature: None }
    }
}

/// An oracle supplier. The core treats any oracle purely as an input
/// source: nothing is promised of what an arbitrary supplier returns.
pub trait OracleProvider {
    /// Request data from the oracle.
    fn request(&self, request: OracleRequest) -> Result<OracleResponse, String>;

    /// Whether the oracle supports a data type.
    fn supports(&self, data_type: OracleDataType) -> bool;
}

/// The score the mock oracle falls back to when none was configured:
/// sub-scores 80, 75 and 70 points, whose mean of 75 rates BBB.
pub open spec fn default_mock_score() -> ESGScore {
    ESGScore {
        environmental: 80000,
        social: 75000,
        governance: 70000,
        total_num: 225000,
        total_den: 3,
        rating: crate::scoring::ESGRating::BBB,
    }
}

/// A mock oracle supplier with fixed answers, for tests and examples.
#[derive(Debug)]
pub struct MockOracleProvider {
    pub default_esg_score: Option<ESGScore>,
}

impl MockOracleProvider {
    /// Create a mock supplier with no configured score.
    pub fn new() -> (oracle: MockOracleProvider)
        ensures
            oracle.default_esg_score is None,
    {
        MockOracleProvider { default_esg_score: None }
    }

    /// This supplier, configured to answer score requests with `score`.
    pub fn with_esg_score(self, score: ESGScore) -> (oracle: MockOracleProvider)
        ensures
            oracle.default_esg_score == Some(score),
    {
        MockOracleProvider { default_esg_score: Some(score) }
    }
}

impl OracleProvider for MockOracleProvider {
    /// The mock answers every request, never fails, echoes the request id,
    /// and returns the fixed answer of the requested data type; a score
    /// request is answered with the configured score, or with the default
    /// mock score when none was configured.
    fn request(&self, request: OracleRequest) -> (r: Result<OracleResponse, String>)
        ensures
            r matches Ok(res) && {
                &&& res.request_id == request.id
                &&& res.signature is None
                &&& request.data_type == OracleDataType::ESGScore ==> res.data
                    == OracleData::ESGScore(
                    match self.default_esg_score {
                        Some(s) => s,
                        None => default_mock_score(),
                    },
                )
                &&& request.data_type == OracleDataType::CarbonEmissions ==> res.data
                    == OracleData::CarbonEmissions(1000000)
                &&& request.data_type == OracleDataType::RegulatoryStatus ==> res.data
                    == OracleData::RegulatoryStatus(true)
                &&& request.data_type == OracleDataType::SanctionsCheck ==> res.data
                    == OracleData::SanctionsCheck(false)
                &&& request.data_type == OracleDataType::CreditRating ==> (res.data
                    matches OracleData::CreditRating(tok) && tok@ == "A"@)
            },
    {
        let data = match request.data_type {
            OracleDataType::ESGScore => {
                let score = match self.default_esg_score {
                    Some(s) => s,
                    None => ESGScore::new(80000, 75000, 70000),
                };
                proof {
                    assert(self.default_esg_score is None ==> score == default_mock_score());
                }
                OracleData::ESGScore(score)
            },
            OracleDataType::CarbonEmissions => OracleData::CarbonEmissions(1000000),
            OracleDataType::RegulatoryStatus => OracleData::RegulatoryStatus(true),
            OracleDataType::SanctionsCheck => OracleData::SanctionsCheck(false),
            OracleDataType::CreditRating => OracleData::CreditRating("A".to_owned()),
        };
        Ok(OracleResponse::new(request.id, data))
    }

    /// The mock supports every data type.
    fn supports(&self, data_type: OracleDataType) -> (r: bool)
        ensures
            r == true,
    {
        true
    }
}

impl Default for MockOracleProvider {
    /// The default mock supplier has no configured score.
    fn default() -> (oracle: MockOracleProvider)
        ensures
            oracle.default_esg_score is None,
    {
        MockOracleProvider { default_esg_score: None }
    }
}

} // verus!
