//! What holds of every generated message, stated over the assembler's and the
//! renderer's contracts.

use vstd::prelude::*;

use crate::calendar::{Date, DateTime};
use crate::conventions::{CORE, CURRENCY, NOT_PROVIDED, SEPA};
use crate::domain::{total_cents, Creditor, Transaction};
use crate::generation::{
    is_creditor_scheme_id, is_iban_account, is_named_party, is_payment_block, is_placeholder_agent,
    is_sepa_document, is_transaction_entry,
};
use crate::schema::{
    BranchAndFinancialInstitutionIdentification8Type,
    CashAccount40Type, DirectDebitTransactionInformation32Type, Document,
    LocalInstrument2ChoiceType, PartyIdentification272Type, PaymentInstruction45Type,
    PaymentMethod2CodeType, SequenceType3CodeType, ServiceLevel8ChoiceType,
};
use crate::text::decimal;
use crate::xml::{
    account_id_text, account_text, agent_text, direct_debit_text, document_text, group_header_text,
    initiation_text, institution_other_text, local_instrument_text, mandate_info_text,
    opt_party_text, opt_text_line, party_id_text, party_text, payment_block_text,
    payment_blocks_text, payment_id_text, payment_type_text, person_other_text,
    person_others_text, remittance_text, scheme_name_text, service_level_text,
    service_levels_text, transaction_text, transactions_text, unstructured_text,
};

verus! {

proof fn lemma_named_party_text(
    p1: PartyIdentification272Type,
    p2: PartyIdentification272Type,
    element: Seq<char>,
    name: Seq<char>,
    d: int,
)
    requires
        is_named_party(p1, name),
        is_named_party(p2, name),
    ensures
        party_text(p1, element, d) == party_text(p2, element, d),
{
    reveal(party_text);
    reveal(opt_text_line);
}

proof fn lemma_iban_account_text(
    a1: CashAccount40Type,
    a2: CashAccount40Type,
    element: Seq<char>,
    iban: Seq<char>,
    d: int,
)
    requires
        is_iban_account(a1, iban),
        is_iban_account(a2, iban),
    ensures
        account_text(a1, element, d) == account_text(a2, element, d),
{
    reveal(account_text);
    reveal(account_id_text);
}

proof fn lemma_placeholder_agent_text(
    a1: BranchAndFinancialInstitutionIdentification8Type,
    a2: BranchAndFinancialInstitutionIdentification8Type,
    element: Seq<char>,
    d: int,
)
    requires
        is_placeholder_agent(a1),
        is_placeholder_agent(a2),
    ensures
        agent_text(a1, element, d) == agent_text(a2, element, d),
{
    reveal(agent_text);
    reveal(institution_other_text);
}

proof fn lemma_creditor_scheme_id_text(
    p1: PartyIdentification272Type,
    p2: PartyIdentification272Type,
    element: Seq<char>,
    id: Seq<char>,
    d: int,
)
    requires
        is_creditor_scheme_id(p1, id),
        is_creditor_scheme_id(p2, id),
    ensures
        party_text(p1, element, d) == party_text(p2, element, d),
{
    reveal(party_text);
    reveal(party_id_text);
    reveal(person_other_text);
    reveal(scheme_name_text);
    reveal_with_fuel(person_others_text, 2);
    let q1 = p1.id.unwrap()->PrvtId_0;
    let q2 = p2.id.unwrap()->PrvtId_0;
    assert(person_other_text(q1.othr@[0], d + 3) == person_other_text(q2.othr@[0], d + 3));
    assert(q1.othr@.drop_last().len() == 0);
    assert(q2.othr@.drop_last().len() == 0);
}

proof fn lemma_entry_text(
    e1: DirectDebitTransactionInformation32Type,
    e2: DirectDebitTransactionInformation32Type,
    t: Transaction,
    d: int,
)
    requires
        is_transaction_entry(e1, t),
        is_transaction_entry(e2, t),
    ensures
        transaction_text(e1, d) == transaction_text(e2, d),
{
    reveal(transaction_text);
    reveal(payment_id_text);
    reveal(direct_debit_text);
    reveal(mandate_info_text);
    reveal(remittance_text);
    reveal(opt_text_line);
    reveal_with_fuel(unstructured_text, 2);
    lemma_placeholder_agent_text(e1.dbtr_agt, e2.dbtr_agt, "DbtrAgt"@, d + 1);
    lemma_named_party_text(e1.dbtr, e2.dbtr, "Dbtr"@, t.debitor.name.value@, d + 1);
    lemma_iban_account_text(e1.dbtr_acct, e2.dbtr_acct, "DbtrAcct"@, t.debitor.iban.iban@, d + 1);
    let r1 = e1.rmt_inf.unwrap();
    let r2 = e2.rmt_inf.unwrap();
    assert(r1.ustrd@.drop_last().len() == 0);
    assert(r2.ustrd@.drop_last().len() == 0);
}

proof fn lemma_entries_text(
    s1: Seq<DirectDebitTransactionInformation32Type>,
    s2: Seq<DirectDebitTransactionInformation32Type>,
    ts: Seq<Transaction>,
    d: int,
)
    requires
        s1.len() == ts.len(),
        s2.len() == ts.len(),
        forall|i: int| 0 <= i < ts.len() ==> is_transaction_entry(#[trigger] s1[i], ts[i]),
        forall|i: int| 0 <= i < ts.len() ==> is_transaction_entry(#[trigger] s2[i], ts[i]),
    ensures
        transactions_text(s1, d) == transactions_text(s2, d),
    decreases ts.len(),
{
    if ts.len() > 0 {
        let n = ts.len() - 1;
        assert(is_transaction_entry(s1[n], ts[n]));
        assert(is_transaction_entry(s2[n], ts[n]));
        lemma_entry_text(s1[n], s2[n], ts[n], d);
        lemma_entries_text(s1.drop_last(), s2.drop_last(), ts.drop_last(), d);
    }
}

proof fn lemma_payment_block_text(
    p1: PaymentInstruction45Type,
    p2: PaymentInstruction45Type,
    collection_date: Date,
    creditor: Creditor,
    ts: Seq<Transaction>,
    d: int,
)
    requires
        is_payment_block(p1, collection_date, creditor, ts),
        is_payment_block(p2, collection_date, creditor, ts),
    ensures
        payment_block_text(p1, d) == payment_block_text(p2, d),
{
    reveal(payment_block_text);
    reveal(payment_type_text);
    reveal(local_instrument_text);
    reveal(service_level_text);
    reveal(opt_party_text);
    reveal(opt_text_line);
    reveal_with_fuel(service_levels_text, 2);
    lemma_named_party_text(p1.cdtr, p2.cdtr, "Cdtr"@, creditor.name.value@, d + 1);
    lemma_iban_account_text(p1.cdtr_acct, p2.cdtr_acct, "CdtrAcct"@, creditor.iban.iban@, d + 1);
    lemma_placeholder_agent_text(p1.cdtr_agt, p2.cdtr_agt, "CdtrAgt"@, d + 1);
    lemma_entries_text(p1.drct_dbt_tx_inf@, p2.drct_dbt_tx_inf@, ts, d + 1);
    let s1 = p1.cdtr_schme_id.unwrap();
    let s2 = p2.cdtr_schme_id.unwrap();
    lemma_creditor_scheme_id_text(s1, s2, "CdtrSchmeId"@, creditor.id.value@, d + 1);
    let t1 = p1.pmt_tp_inf.unwrap();
    let t2 = p2.pmt_tp_inf.unwrap();
    assert(t1.svc_lvl@.drop_last().len() == 0);
    assert(t2.svc_lvl@.drop_last().len() == 0);
    assert(payment_type_text(p1.pmt_tp_inf, d + 1) == payment_type_text(p2.pmt_tp_inf, d + 1));
}

/// The text of a message is fixed by what the message is made of: any two
/// documents for the same message id, creation time, collection date, creditor
/// and transactions render to the same characters.
pub proof fn lemma_document_text_determined(
    d1: Document,
    d2: Document,
    msg: Seq<char>,
    created: DateTime,
    collection_date: Date,
    creditor: Creditor,
    ts: Seq<Transaction>,
)
    requires
        is_sepa_document(d1, msg, created, collection_date, creditor, ts),
        is_sepa_document(d2, msg, created, collection_date, creditor, ts),
    ensures
        document_text(d1) == document_text(d2),
{
    reveal(document_text);
    reveal(initiation_text);
    reveal(group_header_text);
    reveal(party_text);
    reveal(party_id_text);
    reveal(opt_text_line);
    reveal_with_fuel(payment_blocks_text, 2);
    let m1 = d1.cstmr_drct_dbt_initn;
    let m2 = d2.cstmr_drct_dbt_initn;
    lemma_payment_block_text(m1.pmt_inf@[0], m2.pmt_inf@[0], collection_date, creditor, ts, 2);
    assert(m1.pmt_inf@.drop_last().len() == 0);
    assert(m2.pmt_inf@.drop_last().len() == 0);
    assert(group_header_text(m1.grp_hdr, 2) == group_header_text(m2.grp_hdr, 2));
}

/// Rendering is deterministic: two texts that each render a message for the same
/// message id, creation time, collection date, creditor and transactions are equal.
pub proof fn lemma_rendering_deterministic(
    r1: Seq<char>,
    r2: Seq<char>,
    msg: Seq<char>,
    created: DateTime,
    collection_date: Date,
    creditor: Creditor,
    ts: Seq<Transaction>,
)
    requires
        exists|d: Document|
            #[trigger] is_sepa_document(d, msg, created, collection_date, creditor, ts) && r1
                == document_text(d),
        exists|d: Document|
            #[trigger] is_sepa_document(d, msg, created, collection_date, creditor, ts) && r2
                == document_text(d),
    ensures
        r1 == r2,
{
    let d1 = choose|d: Document|
        #[trigger] is_sepa_document(d, msg, created, collection_date, creditor, ts) && r1
            == document_text(d);
    let d2 = choose|d: Document|
        #[trigger] is_sepa_document(d, msg, created, collection_date, creditor, ts) && r2
            == document_text(d);
    lemma_document_text_determined(d1, d2, msg, created, collection_date, creditor, ts);
}

/// The control sum of the group header and that of the payment block both equal
/// the sum of the transaction amounts; for no transactions it is zero.
pub proof fn lemma_control_sums(
    d: Document,
    msg: Seq<char>,
    created: DateTime,
    collection_date: Date,
    creditor: Creditor,
    ts: Seq<Transaction>,
)
    requires
        is_sepa_document(d, msg, created, collection_date, creditor, ts),
    ensures
        d.cstmr_drct_dbt_initn.grp_hdr.ctrl_sum matches Some(c) && c == total_cents(ts),
        d.cstmr_drct_dbt_initn.pmt_inf@[0].ctrl_sum matches Some(c) && c == total_cents(ts),
        ts.len() == 0 ==> d.cstmr_drct_dbt_initn.grp_hdr.ctrl_sum == Some(0u128),
        ts.len() == 0 ==> d.cstmr_drct_dbt_initn.pmt_inf@[0].ctrl_sum == Some(0u128),
{
}

/// The number of transactions, at both levels, is the decimal notation of the
/// length of the transaction list.
pub proof fn lemma_transaction_counts(
    d: Document,
    msg: Seq<char>,
    created: DateTime,
    collection_date: Date,
    creditor: Creditor,
    ts: Seq<Transaction>,
)
    requires
        is_sepa_document(d, msg, created, collection_date, creditor, ts),
    ensures
        d.cstmr_drct_dbt_initn.grp_hdr.nb_of_txs@ == decimal(ts.len()),
        d.cstmr_drct_dbt_initn.pmt_inf@[0].nb_of_txs matches Some(n) && n@ == decimal(ts.len()),
{
}

/// Entry `i` of the payment block is the entry of transaction `i`: the order of
/// the transactions is kept and none is added or dropped.
pub proof fn lemma_order_preserved(
    d: Document,
    msg: Seq<char>,
    created: DateTime,
    collection_date: Date,
    creditor: Creditor,
    ts: Seq<Transaction>,
)
    requires
        is_sepa_document(d, msg, created, collection_date, creditor, ts),
    ensures
        d.cstmr_drct_dbt_initn.pmt_inf@[0].drct_dbt_tx_inf@.len() == ts.len(),
        forall|i: int|
            0 <= i < ts.len() ==> {
                let e = #[trigger] d.cstmr_drct_dbt_initn.pmt_inf@[0].drct_dbt_tx_inf@[i];
                &&& is_transaction_entry(e, ts[i])
                &&& e.instd_amt.content == ts[i].value
                &&& e.dbtr.nm matches Some(n) && n@ == ts[i].debitor.name.value@
            },
{
    let entries = d.cstmr_drct_dbt_initn.pmt_inf@[0].drct_dbt_tx_inf@;
    assert forall|i: int| 0 <= i < ts.len() implies is_transaction_entry(
        #[trigger] entries[i],
        ts[i],
    ) by {}
}

/// The fixed codes: payment method direct debit, batch booking, normal priority,
/// service level `SEPA`, local instrument `CORE`, sequence type recurring, and
/// every amount in `EUR`.
pub proof fn lemma_fixed_fields(
    d: Document,
    msg: Seq<char>,
    created: DateTime,
    collection_date: Date,
    creditor: Creditor,
    ts: Seq<Transaction>,
)
    requires
        is_sepa_document(d, msg, created, collection_date, creditor, ts),
    ensures
        ({
            let p = d.cstmr_drct_dbt_initn.pmt_inf@[0];
            &&& p.pmt_mtd == PaymentMethod2CodeType::Dd
            &&& p.btch_bookg == Some(true)
            &&& p.pmt_tp_inf matches Some(t) && {
                &&& t.svc_lvl@.len() == 1
                &&& t.svc_lvl@[0] matches ServiceLevel8ChoiceType::Cd(c) && c@ == SEPA@
                &&& t.lcl_instrm matches Some(LocalInstrument2ChoiceType::Cd(c)) && c@ == CORE@
                &&& t.seq_tp == Some(SequenceType3CodeType::Rcur)
            }
        }),
        forall|i: int|
            0 <= i < ts.len()
                ==> (#[trigger] d.cstmr_drct_dbt_initn.pmt_inf@[0].drct_dbt_tx_inf@[i]).instd_amt.ccy@
                == CURRENCY@,
{
    let entries = d.cstmr_drct_dbt_initn.pmt_inf@[0].drct_dbt_tx_inf@;
    assert forall|i: int| 0 <= i < ts.len() implies (#[trigger] entries[i]).instd_amt.ccy@
        == CURRENCY@ by {
        assert(is_transaction_entry(entries[i], ts[i]));
    }
}

/// The end-to-end id of every entry, the debitor's institution of every entry and
/// the creditor's institution all carry the placeholder `NOTPROVIDED`.
pub proof fn lemma_placeholders(
    d: Document,
    msg: Seq<char>,
    created: DateTime,
    collection_date: Date,
    creditor: Creditor,
    ts: Seq<Transaction>,
)
    requires
        is_sepa_document(d, msg, created, collection_date, creditor, ts),
    ensures
        d.cstmr_drct_dbt_initn.pmt_inf@[0].cdtr_agt.fin_instn_id.othr matches Some(o) && o.id@
            == NOT_PROVIDED@,
        forall|i: int|
            0 <= i < ts.len() ==> {
                let e = #[trigger] d.cstmr_drct_dbt_initn.pmt_inf@[0].drct_dbt_tx_inf@[i];
                &&& e.pmt_id.end_to_end_id@ == NOT_PROVIDED@
                &&& e.dbtr_agt.fin_instn_id.othr matches Some(o) && o.id@ == NOT_PROVIDED@
            },
{
    let entries = d.cstmr_drct_dbt_initn.pmt_inf@[0].drct_dbt_tx_inf@;
    assert forall|i: int| 0 <= i < ts.len() implies is_transaction_entry(
        #[trigger] entries[i],
        ts[i],
    ) by {}
}

/// A message for no transactions counts "0", sums to zero and has no entries.
pub proof fn lemma_empty_batch(
    d: Document,
    msg: Seq<char>,
    created: DateTime,
    collection_date: Date,
    creditor: Creditor,
)
    requires
        is_sepa_document(d, msg, created, collection_date, creditor, Seq::empty()),
    ensures
        d.cstmr_drct_dbt_initn.grp_hdr.nb_of_txs@ == seq!['0'],
        d.cstmr_drct_dbt_initn.pmt_inf@[0].nb_of_txs matches Some(n) && n@ == seq!['0'],
        d.cstmr_drct_dbt_initn.grp_hdr.ctrl_sum == Some(0u128),
        d.cstmr_drct_dbt_initn.pmt_inf@[0].ctrl_sum == Some(0u128),
        d.cstmr_drct_dbt_initn.pmt_inf@[0].drct_dbt_tx_inf@.len() == 0,
{
    assert(decimal(0) == seq!['0']);
}

} // verus!
