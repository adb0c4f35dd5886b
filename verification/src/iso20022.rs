//! ISO 20022-style message records: instrument identification, message
//! shells, and the ESG classification block.
//!
//! Percentages, quantities and monetary amounts are integers in milli-units
//! (thousandths).

use vstd::prelude::*;

verus! {

/// The ISO 20022 message families this crate speaks of.
#[derive(Debug, Clone, Copy, PartialEq, Eq, Structural)]
pub enum ISO20022MessageType {
    SecuritiesTrade,
    PaymentInitiation,
    AccountStatement,
}

/// Financial instrument identification.
#[derive(Debug, Clone)]
pub struct FinancialInstrument {
    /// International Securities Identification Number.
    pub isin: Option<String>,
    /// Committee on Uniform Securities Identification Procedures number.
    pub cusip: Option<String>,
    /// Legal Entity Identifier.
    pub lei: Option<String>,
    /// Instrument name.
    pub name: String,
}

impl FinancialInstrument {
    /// An instrument identified by its name alone.
    pub fn new(name: String) -> (instr: FinancialInstrument)
        ensures
            instr.isin is None,
            instr.cusip is None,
            instr.lei is None,
            instr.name == name,
    {
        FinancialInstrument { isin: None, cusip: None, lei: None, name }
    }

    /// This instrument with an ISIN attached.
    pub fn with_isin(self, isin: String) -> (instr: FinancialInstrument)
        ensures
            instr.isin == Some(isin),
            instr.cusip == self.cusip,
            instr.lei == self.lei,
            instr.name == self.name,
    {
        FinancialInstrument { isin: Some(isin), ..self }
    }

    /// This instrument with an LEI attached.
    pub fn with_lei(self, lei: String) -> (instr: FinancialInstrument)
        ensures
            instr.lei == Some(lei),
            instr.isin == self.isin,
            instr.cusip == self.cusip,
            instr.name == self.name,
    {
        FinancialInstrument { lei: Some(lei), ..self }
    }
}

/// The ESG classification block carried by outgoing messages.
#[derive(Debug, Clone)]
pub struct ESGClassification {
    /// EU Taxonomy alignment, milli-percent (0..=100_000).
    pub taxonomy_alignment: i64,
    /// SFDR article classification: 6, 8 or 9.
    pub sfdr_article: u8,
    /// Rating token, "AAA" down to "D".
    pub erc8040_rating: String,
    /// Carbon intensity estimate, milli-tCO2e per $M revenue.
    pub carbon_intensity: i64,
}

impl ESGClassification {
    /// Assemble a classification block from its four fields.
    pub fn new(
        taxonomy_alignment: i64,
        sfdr_article: u8,
        erc8040_rating: String,
        carbon_intensity: i64,
    ) -> (c: ESGClassification)
        ensures
            c.taxonomy_alignment == taxonomy_alignment,
            c.sfdr_article == sfdr_article,
            c.erc8040_rating == erc8040_rating,
            c.carbon_intensity == carbon_intensity,
    {
        ESGClassification { taxonomy_alignment, sfdr_article, erc8040_rating, carbon_intensity }
    }
}

/// A securities trade (SETR) message.
#[derive(Debug, Clone)]
pub struct SetrMessage {
    pub message_id: String,
    pub instrument: FinancialInstrument,
    pub esg_classification: Option<ESGClassification>,
    /// Traded quantity, milli-units.
    pub quantity: i64,
    pub trade_date: String,
}

/// A payment initiation (PAIN) message.
#[derive(Debug, Clone)]
pub struct PainMessage {
    pub message_id: String,
    pub debtor: String,
    pub creditor: String,
    /// Amount, milli-units of the currency.
    pub amount: i64,
    pub currency: String,
}

/// A cash management (CAMT) message.
#[derive(Debug, Clone)]
pub struct CamtMessage {
    pub message_id: String,
    pub account_id: String,
    /// Balance, milli-units of the currency.
    pub balance: i64,
    pub currency: String,
}

/// The declared ESG purpose of an instrument.
#[derive(Debug, Clone, Copy, PartialEq, Eq, Structural)]
pub enum ESGPurpose {
    GreenBond,
    SocialBond,
    SustainabilityBond,
    SustainabilityLinkedBond,
    TransitionBond,
    Other,
}

impl ESGPurpose {
    /// The ISO 20022 purpose code of this purpose.
    pub open spec fn iso_code_spec(self) -> Seq<char> {
        match self {
            ESGPurpose::GreenBond => "GRBN"@,
            ESGPurpose::SocialBond => "SOCB"@,
            ESGPurpose::SustainabilityBond => "SUSB"@,
            ESGPurpose::SustainabilityLinkedBond => "SUSL"@,
            ESGPurpose::TransitionBond => "TRBN"@,
            ESGPurpose::Other => "OTHR"@,
        }
    }

    /// The ISO 20022 purpose code of this purpose.
    pub fn iso_code(&self) -> (r: &'static str)
        ensures
            r@ == self.iso_code_spec(),
    {
        match self {
            ESGPurpose::GreenBond => "GRBN",
            ESGPurpose::SocialBond => "SOCB",
            ESGPurpose::SustainabilityBond => "SUSB",
            ESGPurpose::SustainabilityLinkedBond => "SUSL",
            ESGPurpose::TransitionBond => "TRBN",
            ESGPurpose::Other => "OTHR",
        }
    }
}

} // verus!
