//! The records of the ISO 20022 `pain.008.001.11` customer direct-debit initiation
//! message that this library writes. Each record is one XML element; an `Option`
//! is an element that is present or absent, a `Vec` an element that repeats, and
//! an enum a choice of exactly one element.

use vstd::prelude::*;

verus! {

/// The root element.
#[derive(Clone, Debug)]
pub struct Document {
    pub cstmr_drct_dbt_initn: CustomerDirectDebitInitiationV11Type,
}

#[derive(Clone, Debug)]
pub struct CustomerDirectDebitInitiationV11Type {
    pub grp_hdr: GroupHeader118Type,
    pub pmt_inf: Vec<PaymentInstruction45Type>,
}

#[derive(Clone, Debug)]
pub struct GroupHeader118Type {
    pub msg_id: String,
    /// Creation time, RFC 3339 in UTC.
    pub cre_dt_tm: String,
    /// Number of transactions, in decimal.
    pub nb_of_txs: String,
    /// Sum of all amounts, in euro cents.
    pub ctrl_sum: Option<u128>,
    pub initg_pty: PartyIdentification272Type,
}

#[derive(Clone, Debug)]
pub struct PartyIdentification272Type {
    pub nm: Option<String>,
    pub id: Option<Party52ChoiceType>,
}

#[derive(Clone, Debug)]
pub enum Party52ChoiceType {
    OrgId(OrganisationIdentification39Type),
    PrvtId(PersonIdentification18Type),
}

#[derive(Clone, Debug)]
pub struct OrganisationIdentification39Type {
    pub any_bic: Option<String>,
    pub lei: Option<String>,
}

#[derive(Clone, Debug)]
pub struct PersonIdentification18Type {
    pub othr: Vec<GenericPersonIdentification2Type>,
}

#[derive(Clone, Debug)]
pub struct GenericPersonIdentification2Type {
    pub id: String,
    pub schme_nm: Option<PersonIdentificationSchemeName1ChoiceType>,
    pub issr: Option<String>,
}

#[derive(Clone, Debug)]
pub enum PersonIdentificationSchemeName1ChoiceType {
    Cd(String),
    Prtry(String),
}

#[derive(Clone, Debug)]
pub struct PaymentInstruction45Type {
    pub pmt_inf_id: String,
    pub pmt_mtd: PaymentMethod2CodeType,
    pub btch_bookg: Option<bool>,
    pub nb_of_txs: Option<String>,
    /// Sum of the amounts of this block, in euro cents.
    pub ctrl_sum: Option<u128>,
    pub pmt_tp_inf: Option<PaymentTypeInformation29Type>,
    pub reqd_colltn_dt: String,
    pub cdtr: PartyIdentification272Type,
    pub cdtr_acct: CashAccount40Type,
    pub cdtr_agt: BranchAndFinancialInstitutionIdentification8Type,
    pub cdtr_schme_id: Option<PartyIdentification272Type>,
    pub drct_dbt_tx_inf: Vec<DirectDebitTransactionInformation32Type>,
}

/// The payment method; direct debit is the only one of this message.
#[derive(Clone, Copy, Debug, PartialEq, Eq)]
pub enum PaymentMethod2CodeType {
    Dd,
}

#[derive(Clone, Debug)]
pub struct PaymentTypeInformation29Type {
    pub instr_prty: Option<Priority2CodeType>,
    pub svc_lvl: Vec<ServiceLevel8ChoiceType>,
    pub lcl_instrm: Option<LocalInstrument2ChoiceType>,
    pub seq_tp: Option<SequenceType3CodeType>,
}

#[derive(Clone, Copy, Debug, PartialEq, Eq)]
pub enum Priority2CodeType {
    High,
    Norm,
}

#[derive(Clone, Debug)]
pub enum ServiceLevel8ChoiceType {
    Cd(String),
    Prtry(String),
}

#[derive(Clone, Debug)]
pub enum LocalInstrument2ChoiceType {
    Cd(String),
    Prtry(String),
}

#[derive(Clone, Copy, Debug, PartialEq, Eq)]
pub enum SequenceType3CodeType {
    Frst,
    Rcur,
    Fnal,
    Ooff,
    Rpre,
}

#[derive(Clone, Debug)]
pub struct CashAccount40Type {
    pub id: Option<AccountIdentification4ChoiceType>,
    pub ccy: Option<String>,
    pub nm: Option<String>,
}

#[derive(Clone, Debug)]
pub enum AccountIdentification4ChoiceType {
    Iban(String),
    Othr(GenericAccountIdentification1Type),
}

#[derive(Clone, Debug)]
pub struct GenericAccountIdentification1Type {
    pub id: String,
}

#[derive(Clone, Debug)]
pub struct BranchAndFinancialInstitutionIdentification8Type {
    pub fin_instn_id: FinancialInstitutionIdentification23Type,
}

#[derive(Clone, Debug)]
pub struct FinancialInstitutionIdentification23Type {
    pub bicfi: Option<String>,
    pub lei: Option<String>,
    pub nm: Option<String>,
    pub othr: Option<GenericFinancialIdentification1Type>,
}

#[derive(Clone, Debug)]
pub struct GenericFinancialIdentification1Type {
    pub id: String,
    pub issr: Option<String>,
}

#[derive(Clone, Debug)]
pub struct DirectDebitTransactionInformation32Type {
    pub pmt_id: PaymentIdentification6Type,
    pub instd_amt: ActiveOrHistoricCurrencyAndAmountType,
    pub drct_dbt_tx: Option<DirectDebitTransaction12Type>,
    pub dbtr_agt: BranchAndFinancialInstitutionIdentification8Type,
    pub dbtr: PartyIdentification272Type,
    pub dbtr_acct: CashAccount40Type,
    pub rmt_inf: Option<RemittanceInformation22Type>,
}

#[derive(Clone, Debug)]
pub struct PaymentIdentification6Type {
    pub instr_id: Option<String>,
    pub end_to_end_id: String,
}

/// An amount with its currency code.
#[derive(Clone, Debug)]
pub struct ActiveOrHistoricCurrencyAndAmountType {
    pub ccy: String,
    /// The amount in cents of the currency.
    pub content: u64,
}

#[derive(Clone, Debug)]
pub struct DirectDebitTransaction12Type {
    pub mndt_rltd_inf: Option<MandateRelatedInformation16Type>,
}

#[derive(Clone, Debug)]
pub struct MandateRelatedInformation16Type {
    pub mndt_id: Option<String>,
    pub dt_of_sgntr: Option<String>,
}

#[derive(Clone, Debug)]
pub struct RemittanceInformation22Type {
    pub ustrd: Vec<String>,
}

} // verus!
