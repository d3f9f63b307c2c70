//! Fills the message schema from a creditor, a collection date and transactions.

use vstd::prelude::*;

use crate::calendar::{
    format_iso_date, format_posix_short_date, format_rfc3339_utc, iso_date_text,
    posix_short_date_text, rfc3339_utc_text, Date, DateTime,
};
use crate::conventions::{CORE, CURRENCY, NOT_PROVIDED, PAYMENT_INFORMATION_ID, SEPA};
use crate::domain::{
    all_wf, total_cents, Creditor, CreditorID, Mandate, MessageID, Transaction, IBAN,
};
use crate::schema::{
    Document,
    CustomerDirectDebitInitiationV11Type,
    GroupHeader118Type,
    PartyIdentification272Type,
    Party52ChoiceType,
    PersonIdentification18Type,
    GenericPersonIdentification2Type,
    PersonIdentificationSchemeName1ChoiceType,
    PaymentInstruction45Type,
    PaymentMethod2CodeType,
    PaymentTypeInformation29Type,
    Priority2CodeType,
    ServiceLevel8ChoiceType,
    LocalInstrument2ChoiceType,
    SequenceType3CodeType,
    CashAccount40Type,
    AccountIdentification4ChoiceType,
    BranchAndFinancialInstitutionIdentification8Type,
    FinancialInstitutionIdentification23Type,
    GenericFinancialIdentification1Type,
    DirectDebitTransactionInformation32Type,
    PaymentIdentification6Type,
    ActiveOrHistoricCurrencyAndAmountType,
    DirectDebitTransaction12Type,
    MandateRelatedInformation16Type,
    RemittanceInformation22Type,
};
use crate::text::{decimal, decimal_text};
use crate::calendar::utc_now;
use crate::xml::{document_text, serialize_document};

verus! {

/// An institution known only by the placeholder identification.
pub open spec fn is_placeholder_agent(a: BranchAndFinancialInstitutionIdentification8Type) -> bool {
    let f = a.fin_instn_id;
    &&& f.bicfi is None
    &&& f.lei is None
    &&& f.nm is None
    &&& f.othr matches Some(o) && o.id@ == NOT_PROVIDED@ && o.issr is None
}

/// A party given by its name alone.
pub open spec fn is_named_party(p: PartyIdentification272Type, name: Seq<char>) -> bool {
    &&& p.nm matches Some(n) && n@ == name
    &&& p.id is None
}

/// An account given by its IBAN alone.
pub open spec fn is_iban_account(a: CashAccount40Type, iban: Seq<char>) -> bool {
    &&& a.id matches Some(AccountIdentification4ChoiceType::Iban(i)) && i@ == iban
    &&& a.ccy is None
    &&& a.nm is None
}

/// The creditor's scheme identification: one private identification whose id is
/// the creditor identifier, under the proprietary scheme name `SEPA`.
pub open spec fn is_creditor_scheme_id(p: PartyIdentification272Type, creditor_id: Seq<char>) -> bool {
    &&& p.nm is None
    &&& p.id matches Some(Party52ChoiceType::PrvtId(person)) && {
        &&& person.othr@.len() == 1
        &&& person.othr@[0].id@ == creditor_id
        &&& person.othr@[0].issr is None
        &&& person.othr@[0].schme_nm matches Some(
            PersonIdentificationSchemeName1ChoiceType::Prtry(s),
        ) && s@ == SEPA@
    }
}

/// The mandate's id and its date of signature as an ISO date.
pub open spec fn is_mandate_info(m: MandateRelatedInformation16Type, mandate: Mandate) -> bool {
    &&& m.mndt_id matches Some(id) && id@ == mandate.id.value@
    &&& m.dt_of_sgntr matches Some(d) && d@ == iso_date_text(mandate.date_of_signature)
}

/// The entry of the message for the transaction `t`.
pub open spec fn is_transaction_entry(e: DirectDebitTransactionInformation32Type, t: Transaction) -> bool {
    &&& e.pmt_id.instr_id is None
    &&& e.pmt_id.end_to_end_id@ == NOT_PROVIDED@
    &&& e.instd_amt.ccy@ == CURRENCY@
    &&& e.instd_amt.content == t.value
    &&& e.drct_dbt_tx matches Some(dd) && dd.mndt_rltd_inf matches Some(m) && is_mandate_info(
        m,
        t.debitor.mandate,
    )
    &&& is_placeholder_agent(e.dbtr_agt)
    &&& is_named_party(e.dbtr, t.debitor.name.value@)
    &&& is_iban_account(e.dbtr_acct, t.debitor.iban.iban@)
    &&& e.rmt_inf matches Some(r) && r.ustrd@.len() == 1 && r.ustrd@[0]@ == t.purpose.value@
}

/// The group header of a message with id `msg`, made at `created`, for `ts`.
pub open spec fn is_group_header(
    h: GroupHeader118Type,
    msg: Seq<char>,
    created: DateTime,
    ts: Seq<Transaction>,
) -> bool {
    &&& h.msg_id@ == msg
    &&& h.cre_dt_tm@ == rfc3339_utc_text(created)
    &&& h.nb_of_txs@ == decimal(ts.len())
    &&& h.ctrl_sum matches Some(c) && c == total_cents(ts)
    &&& h.initg_pty.nm is None
    &&& h.initg_pty.id is None
}

/// Normal priority, service level `SEPA`, local instrument `CORE`, recurring.
pub open spec fn is_sepa_core_recurring(p: PaymentTypeInformation29Type) -> bool {
    &&& p.instr_prty == Some(Priority2CodeType::Norm)
    &&& p.svc_lvl@.len() == 1
    &&& p.svc_lvl@[0] matches ServiceLevel8ChoiceType::Cd(c) && c@ == SEPA@
    &&& p.lcl_instrm matches Some(LocalInstrument2ChoiceType::Cd(c)) && c@ == CORE@
    &&& p.seq_tp == Some(SequenceType3CodeType::Rcur)
}

/// The payment block that collects `ts` for `creditor` on `collection_date`, one
/// entry per transaction in the order of `ts`.
pub open spec fn is_payment_block(
    p: PaymentInstruction45Type,
    collection_date: Date,
    creditor: Creditor,
    ts: Seq<Transaction>,
) -> bool {
    &&& p.pmt_inf_id@ == PAYMENT_INFORMATION_ID@
    &&& p.pmt_mtd == PaymentMethod2CodeType::Dd
    &&& p.btch_bookg == Some(true)
    &&& p.nb_of_txs matches Some(n) && n@ == decimal(ts.len())
    &&& p.ctrl_sum matches Some(c) && c == total_cents(ts)
    &&& p.pmt_tp_inf matches Some(info) && is_sepa_core_recurring(info)
    &&& p.reqd_colltn_dt@ == posix_short_date_text(collection_date)
    &&& is_named_party(p.cdtr, creditor.name.value@)
    &&& is_iban_account(p.cdtr_acct, creditor.iban.iban@)
    &&& is_placeholder_agent(p.cdtr_agt)
    &&& p.cdtr_schme_id matches Some(s) && is_creditor_scheme_id(s, creditor.id.value@)
    &&& p.drct_dbt_tx_inf@.len() == ts.len()
    &&& forall|i: int|
        0 <= i < ts.len() ==> is_transaction_entry(#[trigger] p.drct_dbt_tx_inf@[i], ts[i])
}

/// The message for `ts`: its group header and exactly one payment block.
pub open spec fn is_sepa_document(
    d: Document,
    msg: Seq<char>,
    created: DateTime,
    collection_date: Date,
    creditor: Creditor,
    ts: Seq<Transaction>,
) -> bool {
    let m = d.cstmr_drct_dbt_initn;
    &&& is_group_header(m.grp_hdr, msg, created, ts)
    &&& m.pmt_inf@.len() == 1
    &&& is_payment_block(m.pmt_inf@[0], collection_date, creditor, ts)
}

fn owned(s: &str) -> (r: String)
    ensures
        r@ == s@,
{
    String::from_str(s)
}

fn placeholder_agent() -> (r: BranchAndFinancialInstitutionIdentification8Type)
    ensures
        is_placeholder_agent(r),
{
    BranchAndFinancialInstitutionIdentification8Type {
        fin_instn_id: FinancialInstitutionIdentification23Type {
            bicfi: None,
            lei: None,
            nm: None,
            othr: Some(GenericFinancialIdentification1Type { id: owned(NOT_PROVIDED), issr: None }),
        },
    }
}

fn iban_account(iban: String) -> (r: CashAccount40Type)
    ensures
        is_iban_account(r, iban@),
{
    CashAccount40Type { id: Some(AccountIdentification4ChoiceType::Iban(iban)), ccy: None, nm: None }
}

/// The group header; `control_sum` is in cents.
pub fn generate_group_header(
    message_id: MessageID,
    creation_time: &DateTime,
    num_transactions: usize,
    control_sum: u128,
) -> (r: GroupHeader118Type)
    requires
        creation_time.wf(),
    ensures
        r.msg_id@ == message_id@,
        r.cre_dt_tm@ == rfc3339_utc_text(*creation_time),
        r.nb_of_txs@ == decimal(num_transactions as nat),
        r.ctrl_sum == Some(control_sum),
        r.initg_pty.nm is None,
        r.initg_pty.id is None,
{
    GroupHeader118Type {
        msg_id: message_id,
        cre_dt_tm: format_rfc3339_utc(creation_time),
        nb_of_txs: decimal_text(num_transactions as u128),
        ctrl_sum: Some(control_sum),
        initg_pty: PartyIdentification272Type { nm: None, id: None },
    }
}

/// The creditor party, known by name.
pub fn generate_creditor_info(name: &str) -> (r: PartyIdentification272Type)
    ensures
        is_named_party(r, name@),
{
    PartyIdentification272Type { nm: Some(owned(name)), id: None }
}

/// The creditor's account, known by IBAN.
pub fn generate_creditor_account(creditor_iban: IBAN) -> (r: CashAccount40Type)
    ensures
        is_iban_account(r, creditor_iban.iban@),
{
    iban_account(creditor_iban.iban)
}

/// The creditor's scheme identification.
pub fn generate_creditor_scheme_id(creditor_id: CreditorID) -> (r: PartyIdentification272Type)
    ensures
        is_creditor_scheme_id(r, creditor_id.value@),
{
    let othr = vec![
        GenericPersonIdentification2Type {
            id: creditor_id.value,
            issr: None,
            schme_nm: Some(PersonIdentificationSchemeName1ChoiceType::Prtry(owned(SEPA))),
        },
    ];
    PartyIdentification272Type {
        nm: None,
        id: Some(Party52ChoiceType::PrvtId(PersonIdentification18Type { othr })),
    }
}

/// The mandate-related information of `mandate`.
pub fn generate_mandate_info(mandate: &Mandate) -> (r: MandateRelatedInformation16Type)
    requires
        mandate.date_of_signature.wf(),
    ensures
        is_mandate_info(r, *mandate),
{
    MandateRelatedInformation16Type {
        mndt_id: Some(mandate.id.value.clone()),
        dt_of_sgntr: Some(format_iso_date(&mandate.date_of_signature)),
    }
}

/// The entry of the message for one transaction.
pub fn generate_direct_debit_transaction(transaction: &Transaction) -> (r:
    DirectDebitTransactionInformation32Type)
    requires
        transaction.wf(),
    ensures
        is_transaction_entry(r, *transaction),
{
    let debitor = &transaction.debitor;
    let ustrd = vec![transaction.purpose.value.clone()];
    DirectDebitTransactionInformation32Type {
        pmt_id: PaymentIdentification6Type { instr_id: None, end_to_end_id: owned(NOT_PROVIDED) },
        instd_amt: ActiveOrHistoricCurrencyAndAmountType {
            ccy: owned(CURRENCY),
            content: transaction.value,
        },
        drct_dbt_tx: Some(
            DirectDebitTransaction12Type {
                mndt_rltd_inf: Some(generate_mandate_info(&debitor.mandate)),
            },
        ),
        dbtr_agt: placeholder_agent(),
        dbtr: PartyIdentification272Type { nm: Some(debitor.name.value.clone()), id: None },
        dbtr_acct: iban_account(debitor.iban.iban.clone()),
        rmt_inf: Some(RemittanceInformation22Type { ustrd }),
    }
}

/// The sum of the amounts of `transactions`, in cents.
pub fn control_sum(transactions: &Vec<Transaction>) -> (r: u128)
    ensures
        r == total_cents(transactions@),
{
    let mut total: u128 = 0;
    let mut i: usize = 0;
    while i < transactions.len()
        invariant
            i <= transactions@.len(),
            total == total_cents(transactions@.take(i as int)),
            total <= i * 0xffff_ffff_ffff_ffffu128,
        decreases transactions@.len() - i,
    {
        let value = transactions[i].value;
        proof {
            let n = i as int;
            assert(n + 1 <= 0xffff_ffff_ffff_ffff);
            assert((n + 1) * 0xffff_ffff_ffff_ffff <= 0xffff_ffff_ffff_ffff * 0xffff_ffff_ffff_ffff)
                by (nonlinear_arith)
                requires
                    n + 1 <= 0xffff_ffff_ffff_ffff,
            ;
            assert(transactions@.take(n + 1).drop_last() =~= transactions@.take(n));
        }
        total = total + value as u128;
        i = i + 1;
    }
    assert(transactions@.take(i as int) =~= transactions@);
    total
}

/// The message for `transactions`, collected for `creditor` on `collection_date`,
/// made at `creation_time`.
pub fn generate_sepa_document_type(
    message_id: MessageID,
    creation_time: DateTime,
    collection_date: Date,
    creditor: Creditor,
    transactions: Vec<Transaction>,
) -> (r: Document)
    requires
        creation_time.wf(),
        collection_date.wf(),
        all_wf(transactions@),
    ensures
        is_sepa_document(r, message_id@, creation_time, collection_date, creditor, transactions@),
{
    let num_transactions = transactions.len();
    let total = control_sum(&transactions);
    let mut entries: Vec<DirectDebitTransactionInformation32Type> = Vec::new();
    let mut i: usize = 0;
    while i < transactions.len()
        invariant
            i <= transactions@.len(),
            all_wf(transactions@),
            entries@.len() == i,
            forall|j: int| 0 <= j < i ==> is_transaction_entry(#[trigger] entries@[j], transactions@[j]),
        decreases transactions@.len() - i,
    {
        let entry = generate_direct_debit_transaction(&transactions[i]);
        entries.push(entry);
        i = i + 1;
    }
    let payment_type = PaymentTypeInformation29Type {
        instr_prty: Some(Priority2CodeType::Norm),
        svc_lvl: vec![ServiceLevel8ChoiceType::Cd(owned(SEPA))],
        lcl_instrm: Some(LocalInstrument2ChoiceType::Cd(owned(CORE))),
        seq_tp: Some(SequenceType3CodeType::Rcur),
    };
    let cdtr = generate_creditor_info(creditor.name.value.as_str());
    let cdtr_acct = generate_creditor_account(creditor.iban);
    let cdtr_schme_id = generate_creditor_scheme_id(creditor.id);
    let block = PaymentInstruction45Type {
        pmt_inf_id: owned(PAYMENT_INFORMATION_ID),
        pmt_mtd: PaymentMethod2CodeType::Dd,
        btch_bookg: Some(true),
        nb_of_txs: Some(decimal_text(num_transactions as u128)),
        ctrl_sum: Some(total),
        pmt_tp_inf: Some(payment_type),
        reqd_colltn_dt: format_posix_short_date(&collection_date),
        cdtr,
        cdtr_acct,
        cdtr_agt: placeholder_agent(),
        cdtr_schme_id: Some(cdtr_schme_id),
        drct_dbt_tx_inf: entries,
    };
    let grp_hdr = generate_group_header(message_id, &creation_time, num_transactions, total);
    Document {
        cstmr_drct_dbt_initn: CustomerDirectDebitInitiationV11Type {
            grp_hdr,
            pmt_inf: vec![block],
        },
    }
}

/// Why no document was made.
#[derive(Clone, Copy, Debug, PartialEq, Eq)]
pub enum GenerationError {
    /// The system clock gave a moment whose year has not four digits.
    ClockOutOfRange,
}

/// The XML text of the message for `transactions`, made at `creation_time`; the
/// time of day of `collection_date` is dropped.
pub fn render_sepa_document(
    message_id: MessageID,
    creation_time: DateTime,
    collection_date: DateTime,
    creditor: Creditor,
    transactions: Vec<Transaction>,
) -> (r: String)
    requires
        creation_time.wf(),
        collection_date.wf(),
        all_wf(transactions@),
    ensures
        exists|d: Document|
            #[trigger] is_sepa_document(
                d,
                message_id@,
                creation_time,
                collection_date.date,
                creditor,
                transactions@,
            ) && r@ == document_text(d),
{
    let ghost msg = message_id@;
    let ghost ts = transactions@;
    let document = generate_sepa_document_type(
        message_id,
        creation_time,
        collection_date.date,
        creditor,
        transactions,
    );
    let r = serialize_document(&document);
    assert(is_sepa_document(document, msg, creation_time, collection_date.date, creditor, ts));
    r
}

/// The XML text of the message for `transactions`, made now; the time of day of
/// `collection_date` is dropped.
pub fn generate_sepa_document(
    message_id: MessageID,
    collection_date: DateTime,
    creditor: Creditor,
    transactions: Vec<Transaction>,
) -> (r: Result<String, GenerationError>)
    requires
        collection_date.wf(),
        all_wf(transactions@),
    ensures
        r matches Ok(text) ==> exists|created: DateTime, d: Document|
            created.wf() && #[trigger] is_sepa_document(
                d,
                message_id@,
                created,
                collection_date.date,
                creditor,
                transactions@,
            ) && text@ == document_text(d),
{
    match utc_now() {
        Some(now) => Ok(render_sepa_document(message_id, now, collection_date, creditor, transactions)),
        None => Err(GenerationError::ClockOutOfRange),
    }
}

} // verus!
