//! Renders a message to XML text: one element per line, four spaces of
//! indentation per level, fields in the order of the schema.

use vstd::prelude::*;

use crate::conventions::PAIN_008_001_11_NAMESPACE;
use crate::schema::{
    AccountIdentification4ChoiceType, BranchAndFinancialInstitutionIdentification8Type,
    CashAccount40Type, CustomerDirectDebitInitiationV11Type, DirectDebitTransaction12Type,
    DirectDebitTransactionInformation32Type, Document, GenericFinancialIdentification1Type,
    GenericPersonIdentification2Type, GroupHeader118Type, LocalInstrument2ChoiceType,
    MandateRelatedInformation16Type, Party52ChoiceType, PartyIdentification272Type,
    PaymentIdentification6Type, PaymentInstruction45Type, PaymentMethod2CodeType,
    PaymentTypeInformation29Type, PersonIdentificationSchemeName1ChoiceType, Priority2CodeType,
    RemittanceInformation22Type, SequenceType3CodeType, ServiceLevel8ChoiceType,
};
use crate::text::{amount_string, amount_text, escape_xml, push_char, xml_escaped};

verus! {

/// The deepest level at which an element is written.
pub const MAX_DEPTH: usize = 64;

/// Four spaces per level.
pub open spec fn indent(depth: int) -> Seq<char>
    decreases depth,
{
    if depth <= 0 {
        Seq::empty()
    } else {
        indent(depth - 1) + seq![' ', ' ', ' ', ' ']
    }
}

/// The line that opens element `name`.
#[verifier::opaque]
pub open spec fn start_line(depth: int, name: Seq<char>) -> Seq<char> {
    indent(depth) + seq!['<'] + name + seq!['>', '\n']
}

/// The line that closes element `name`.
#[verifier::opaque]
pub open spec fn end_line(depth: int, name: Seq<char>) -> Seq<char> {
    indent(depth) + seq!['<', '/'] + name + seq!['>', '\n']
}

/// Element `name` on one line around `content`, which is written as it is.
#[verifier::opaque]
pub open spec fn raw_line(depth: int, name: Seq<char>, content: Seq<char>) -> Seq<char> {
    indent(depth) + seq!['<'] + name + seq!['>'] + content + seq!['<', '/'] + name + seq!['>', '\n']
}

/// Element `name` on one line around the escaped `text`.
#[verifier::opaque]
pub open spec fn text_line(depth: int, name: Seq<char>, text: Seq<char>) -> Seq<char> {
    raw_line(depth, name, xml_escaped(text))
}

#[verifier::opaque]
pub open spec fn opt_text_line(depth: int, name: Seq<char>, text: Option<String>) -> Seq<char> {
    match text {
        Some(t) => text_line(depth, name, t@),
        None => Seq::empty(),
    }
}

#[verifier::opaque]
pub open spec fn opt_amount_line(depth: int, name: Seq<char>, cents: Option<u128>) -> Seq<char> {
    match cents {
        Some(c) => raw_line(depth, name, amount_text(c as nat)),
        None => Seq::empty(),
    }
}

pub open spec fn bool_text(b: bool) -> Seq<char> {
    if b {
        seq!['t', 'r', 'u', 'e']
    } else {
        seq!['f', 'a', 'l', 's', 'e']
    }
}

#[verifier::opaque]
pub open spec fn opt_bool_line(depth: int, name: Seq<char>, b: Option<bool>) -> Seq<char> {
    match b {
        Some(v) => raw_line(depth, name, bool_text(v)),
        None => Seq::empty(),
    }
}

pub open spec fn priority_text(p: Priority2CodeType) -> Seq<char> {
    match p {
        Priority2CodeType::High => seq!['H', 'I', 'G', 'H'],
        Priority2CodeType::Norm => seq!['N', 'O', 'R', 'M'],
    }
}

pub open spec fn sequence_type_text(s: SequenceType3CodeType) -> Seq<char> {
    match s {
        SequenceType3CodeType::Frst => seq!['F', 'R', 'S', 'T'],
        SequenceType3CodeType::Rcur => seq!['R', 'C', 'U', 'R'],
        SequenceType3CodeType::Fnal => seq!['F', 'N', 'A', 'L'],
        SequenceType3CodeType::Ooff => seq!['O', 'O', 'F', 'F'],
        SequenceType3CodeType::Rpre => seq!['R', 'P', 'R', 'E'],
    }
}

pub open spec fn payment_method_text(m: PaymentMethod2CodeType) -> Seq<char> {
    match m {
        PaymentMethod2CodeType::Dd => seq!['D', 'D'],
    }
}

/// The first line of every document.
pub open spec fn declaration_line() -> Seq<char> {
    "<?xml version=\"1.0\" encoding=\"UTF-8\"?>\n"@
}

/// The line that opens the root element, with the message's namespace.
pub open spec fn root_start_line() -> Seq<char> {
    "<Document xmlns=\""@ + PAIN_008_001_11_NAMESPACE@ + "\">\n"@
}

pub open spec fn root_end_line() -> Seq<char> {
    "</Document>\n"@
}

#[verifier::opaque]
pub open spec fn scheme_name_text(s: Option<PersonIdentificationSchemeName1ChoiceType>, d: int) -> Seq<
    char,
> {
    match s {
        Some(PersonIdentificationSchemeName1ChoiceType::Cd(c)) => start_line(d, "SchmeNm"@)
            + text_line(d + 1, "Cd"@, c@) + end_line(d, "SchmeNm"@),
        Some(PersonIdentificationSchemeName1ChoiceType::Prtry(p)) => start_line(d, "SchmeNm"@)
            + text_line(d + 1, "Prtry"@, p@) + end_line(d, "SchmeNm"@),
        None => Seq::empty(),
    }
}

#[verifier::opaque]
pub open spec fn person_other_text(g: GenericPersonIdentification2Type, d: int) -> Seq<char> {
    start_line(d, "Othr"@) + text_line(d + 1, "Id"@, g.id@) + scheme_name_text(g.schme_nm, d + 1)
        + opt_text_line(d + 1, "Issr"@, g.issr) + end_line(d, "Othr"@)
}

pub open spec fn person_others_text(s: Seq<GenericPersonIdentification2Type>, d: int) -> Seq<char>
    decreases s.len(),
{
    if s.len() == 0 {
        Seq::empty()
    } else {
        person_others_text(s.drop_last(), d) + person_other_text(s.last(), d)
    }
}

#[verifier::opaque]
pub open spec fn party_id_text(id: Option<Party52ChoiceType>, d: int) -> Seq<char> {
    match id {
        Some(Party52ChoiceType::OrgId(o)) => start_line(d, "Id"@) + start_line(d + 1, "OrgId"@)
            + opt_text_line(d + 2, "AnyBIC"@, o.any_bic) + opt_text_line(d + 2, "LEI"@, o.lei)
            + end_line(d + 1, "OrgId"@) + end_line(d, "Id"@),
        Some(Party52ChoiceType::PrvtId(p)) => start_line(d, "Id"@) + start_line(d + 1, "PrvtId"@)
            + person_others_text(p.othr@, d + 2) + end_line(d + 1, "PrvtId"@) + end_line(d, "Id"@),
        None => Seq::empty(),
    }
}

/// A party as element `name`.
#[verifier::opaque]
pub open spec fn party_text(p: PartyIdentification272Type, name: Seq<char>, d: int) -> Seq<char> {
    start_line(d, name) + opt_text_line(d + 1, "Nm"@, p.nm) + party_id_text(p.id, d + 1) + end_line(
        d,
        name,
    )
}

#[verifier::opaque]
pub open spec fn opt_party_text(p: Option<PartyIdentification272Type>, name: Seq<char>, d: int) -> Seq<
    char,
> {
    match p {
        Some(q) => party_text(q, name, d),
        None => Seq::empty(),
    }
}

#[verifier::opaque]
pub open spec fn group_header_text(h: GroupHeader118Type, d: int) -> Seq<char> {
    start_line(d, "GrpHdr"@) + text_line(d + 1, "MsgId"@, h.msg_id@) + text_line(
        d + 1,
        "CreDtTm"@,
        h.cre_dt_tm@,
    ) + text_line(d + 1, "NbOfTxs"@, h.nb_of_txs@) + opt_amount_line(d + 1, "CtrlSum"@, h.ctrl_sum)
        + party_text(h.initg_pty, "InitgPty"@, d + 1) + end_line(d, "GrpHdr"@)
}

#[verifier::opaque]
pub open spec fn account_id_text(id: Option<AccountIdentification4ChoiceType>, d: int) -> Seq<char> {
    match id {
        Some(AccountIdentification4ChoiceType::Iban(i)) => start_line(d, "Id"@) + text_line(
            d + 1,
            "IBAN"@,
            i@,
        ) + end_line(d, "Id"@),
        Some(AccountIdentification4ChoiceType::Othr(o)) => start_line(d, "Id"@) + start_line(
            d + 1,
            "Othr"@,
        ) + text_line(d + 2, "Id"@, o.id@) + end_line(d + 1, "Othr"@) + end_line(d, "Id"@),
        None => Seq::empty(),
    }
}

/// An account as element `name`.
#[verifier::opaque]
pub open spec fn account_text(a: CashAccount40Type, name: Seq<char>, d: int) -> Seq<char> {
    start_line(d, name) + account_id_text(a.id, d + 1) + opt_text_line(d + 1, "Ccy"@, a.ccy)
        + opt_text_line(d + 1, "Nm"@, a.nm) + end_line(d, name)
}

#[verifier::opaque]
pub open spec fn institution_other_text(o: Option<GenericFinancialIdentification1Type>, d: int) -> Seq<
    char,
> {
    match o {
        Some(g) => start_line(d, "Othr"@) + text_line(d + 1, "Id"@, g.id@) + opt_text_line(
            d + 1,
            "Issr"@,
            g.issr,
        ) + end_line(d, "Othr"@),
        None => Seq::empty(),
    }
}

/// A financial institution as element `name`.
#[verifier::opaque]
pub open spec fn agent_text(
    a: BranchAndFinancialInstitutionIdentification8Type,
    name: Seq<char>,
    d: int,
) -> Seq<char> {
    let f = a.fin_instn_id;
    start_line(d, name) + start_line(d + 1, "FinInstnId"@) + opt_text_line(d + 2, "BICFI"@, f.bicfi)
        + opt_text_line(d + 2, "LEI"@, f.lei) + opt_text_line(d + 2, "Nm"@, f.nm)
        + institution_other_text(f.othr, d + 2) + end_line(d + 1, "FinInstnId"@) + end_line(d, name)
}

#[verifier::opaque]
pub open spec fn payment_id_text(p: PaymentIdentification6Type, d: int) -> Seq<char> {
    start_line(d, "PmtId"@) + opt_text_line(d + 1, "InstrId"@, p.instr_id) + text_line(
        d + 1,
        "EndToEndId"@,
        p.end_to_end_id@,
    ) + end_line(d, "PmtId"@)
}

/// The amount line, with the currency as attribute `Ccy`.
#[verifier::opaque]
pub open spec fn instructed_amount_text(ccy: Seq<char>, cents: nat, d: int) -> Seq<char> {
    indent(d) + "<InstdAmt Ccy=\""@ + xml_escaped(ccy) + "\">"@ + amount_text(cents)
        + "</InstdAmt>\n"@
}

#[verifier::opaque]
pub open spec fn mandate_info_text(m: Option<MandateRelatedInformation16Type>, d: int) -> Seq<char> {
    match m {
        Some(i) => start_line(d, "MndtRltdInf"@) + opt_text_line(d + 1, "MndtId"@, i.mndt_id)
            + opt_text_line(d + 1, "DtOfSgntr"@, i.dt_of_sgntr) + end_line(d, "MndtRltdInf"@),
        None => Seq::empty(),
    }
}

#[verifier::opaque]
pub open spec fn direct_debit_text(t: Option<DirectDebitTransaction12Type>, d: int) -> Seq<char> {
    match t {
        Some(x) => start_line(d, "DrctDbtTx"@) + mandate_info_text(x.mndt_rltd_inf, d + 1)
            + end_line(d, "DrctDbtTx"@),
        None => Seq::empty(),
    }
}

pub open spec fn unstructured_text(s: Seq<String>, d: int) -> Seq<char>
    decreases s.len(),
{
    if s.len() == 0 {
        Seq::empty()
    } else {
        unstructured_text(s.drop_last(), d) + text_line(d, "Ustrd"@, s.last()@)
    }
}

#[verifier::opaque]
pub open spec fn remittance_text(r: Option<RemittanceInformation22Type>, d: int) -> Seq<char> {
    match r {
        Some(x) => start_line(d, "RmtInf"@) + unstructured_text(x.ustrd@, d + 1) + end_line(
            d,
            "RmtInf"@,
        ),
        None => Seq::empty(),
    }
}

/// One transaction entry.
#[verifier::opaque]
pub open spec fn transaction_text(e: DirectDebitTransactionInformation32Type, d: int) -> Seq<char> {
    start_line(d, "DrctDbtTxInf"@) + payment_id_text(e.pmt_id, d + 1) + instructed_amount_text(
        e.instd_amt.ccy@,
        e.instd_amt.content as nat,
        d + 1,
    ) + direct_debit_text(e.drct_dbt_tx, d + 1) + agent_text(e.dbtr_agt, "DbtrAgt"@, d + 1)
        + party_text(e.dbtr, "Dbtr"@, d + 1) + account_text(e.dbtr_acct, "DbtrAcct"@, d + 1)
        + remittance_text(e.rmt_inf, d + 1) + end_line(d, "DrctDbtTxInf"@)
}

/// The entries in their order.
pub open spec fn transactions_text(s: Seq<DirectDebitTransactionInformation32Type>, d: int) -> Seq<
    char,
>
    decreases s.len(),
{
    if s.len() == 0 {
        Seq::empty()
    } else {
        transactions_text(s.drop_last(), d) + transaction_text(s.last(), d)
    }
}

#[verifier::opaque]
pub open spec fn service_level_text(s: ServiceLevel8ChoiceType, d: int) -> Seq<char> {
    start_line(d, "SvcLvl"@) + match s {
        ServiceLevel8ChoiceType::Cd(c) => text_line(d + 1, "Cd"@, c@),
        ServiceLevel8ChoiceType::Prtry(p) => text_line(d + 1, "Prtry"@, p@),
    } + end_line(d, "SvcLvl"@)
}

pub open spec fn service_levels_text(s: Seq<ServiceLevel8ChoiceType>, d: int) -> Seq<char>
    decreases s.len(),
{
    if s.len() == 0 {
        Seq::empty()
    } else {
        service_levels_text(s.drop_last(), d) + service_level_text(s.last(), d)
    }
}

#[verifier::opaque]
pub open spec fn local_instrument_text(l: Option<LocalInstrument2ChoiceType>, d: int) -> Seq<char> {
    match l {
        Some(LocalInstrument2ChoiceType::Cd(c)) => start_line(d, "LclInstrm"@) + text_line(
            d + 1,
            "Cd"@,
            c@,
        ) + end_line(d, "LclInstrm"@),
        Some(LocalInstrument2ChoiceType::Prtry(p)) => start_line(d, "LclInstrm"@) + text_line(
            d + 1,
            "Prtry"@,
            p@,
        ) + end_line(d, "LclInstrm"@),
        None => Seq::empty(),
    }
}

#[verifier::opaque]
pub open spec fn opt_priority_line(d: int, p: Option<Priority2CodeType>) -> Seq<char> {
    match p {
        Some(x) => raw_line(d, "InstrPrty"@, priority_text(x)),
        None => Seq::empty(),
    }
}

#[verifier::opaque]
pub open spec fn opt_sequence_type_line(d: int, s: Option<SequenceType3CodeType>) -> Seq<char> {
    match s {
        Some(x) => raw_line(d, "SeqTp"@, sequence_type_text(x)),
        None => Seq::empty(),
    }
}

#[verifier::opaque]
pub open spec fn payment_type_text(p: Option<PaymentTypeInformation29Type>, d: int) -> Seq<char> {
    match p {
        Some(t) => start_line(d, "PmtTpInf"@) + opt_priority_line(d + 1, t.instr_prty)
            + service_levels_text(t.svc_lvl@, d + 1) + local_instrument_text(t.lcl_instrm, d + 1)
            + opt_sequence_type_line(d + 1, t.seq_tp) + end_line(d, "PmtTpInf"@),
        None => Seq::empty(),
    }
}

/// One payment block with its entries.
#[verifier::opaque]
pub open spec fn payment_block_text(p: PaymentInstruction45Type, d: int) -> Seq<char> {
    start_line(d, "PmtInf"@) + text_line(d + 1, "PmtInfId"@, p.pmt_inf_id@) + raw_line(
        d + 1,
        "PmtMtd"@,
        payment_method_text(p.pmt_mtd),
    ) + opt_bool_line(d + 1, "BtchBookg"@, p.btch_bookg) + opt_text_line(
        d + 1,
        "NbOfTxs"@,
        p.nb_of_txs,
    ) + opt_amount_line(d + 1, "CtrlSum"@, p.ctrl_sum) + payment_type_text(p.pmt_tp_inf, d + 1)
        + text_line(d + 1, "ReqdColltnDt"@, p.reqd_colltn_dt@) + party_text(p.cdtr, "Cdtr"@, d + 1)
        + account_text(p.cdtr_acct, "CdtrAcct"@, d + 1) + agent_text(p.cdtr_agt, "CdtrAgt"@, d + 1)
        + opt_party_text(p.cdtr_schme_id, "CdtrSchmeId"@, d + 1) + transactions_text(
        p.drct_dbt_tx_inf@,
        d + 1,
    ) + end_line(d, "PmtInf"@)
}

pub open spec fn payment_blocks_text(s: Seq<PaymentInstruction45Type>, d: int) -> Seq<char>
    decreases s.len(),
{
    if s.len() == 0 {
        Seq::empty()
    } else {
        payment_blocks_text(s.drop_last(), d) + payment_block_text(s.last(), d)
    }
}

#[verifier::opaque]
pub open spec fn initiation_text(m: CustomerDirectDebitInitiationV11Type, d: int) -> Seq<char> {
    start_line(d, "CstmrDrctDbtInitn"@) + group_header_text(m.grp_hdr, d + 1) + payment_blocks_text(
        m.pmt_inf@,
        d + 1,
    ) + end_line(d, "CstmrDrctDbtInitn"@)
}

/// The whole text of a message.
#[verifier::opaque]
pub open spec fn document_text(doc: Document) -> Seq<char> {
    declaration_line() + root_start_line() + initiation_text(doc.cstmr_drct_dbt_initn, 1)
        + root_end_line()
}

fn write_str(out: &mut String, s: &str)
    ensures
        final(out)@ == old(out)@ + s@,
{
    out.append(s);
}

fn write_indent(out: &mut String, depth: usize)
    ensures
        final(out)@ == old(out)@ + indent(depth as int),
{
    let mut i: usize = 0;
    while i < depth
        invariant
            i <= depth,
            out@ == old(out)@ + indent(i as int),
        decreases depth - i,
    {
        write_str(out, "    ");
        proof {
            reveal_strlit("    ");
        }
        i = i + 1;
        assert(out@ =~= old(out)@ + indent(i as int));
    }
}

fn write_start(out: &mut String, depth: usize, name: &str)
    ensures
        final(out)@ == old(out)@ + start_line(depth as int, name@),
{
    proof {
        reveal(start_line);
    }
    write_indent(out, depth);
    push_char(out, '<');
    write_str(out, name);
    push_char(out, '>');
    push_char(out, '\n');
    assert(out@ =~= old(out)@ + start_line(depth as int, name@));
}

fn write_end(out: &mut String, depth: usize, name: &str)
    ensures
        final(out)@ == old(out)@ + end_line(depth as int, name@),
{
    proof {
        reveal(end_line);
    }
    write_indent(out, depth);
    push_char(out, '<');
    push_char(out, '/');
    write_str(out, name);
    push_char(out, '>');
    push_char(out, '\n');
    assert(out@ =~= old(out)@ + end_line(depth as int, name@));
}

fn write_raw_line(out: &mut String, depth: usize, name: &str, content: &str)
    ensures
        final(out)@ == old(out)@ + raw_line(depth as int, name@, content@),
{
    proof {
        reveal(raw_line);
    }
    write_indent(out, depth);
    push_char(out, '<');
    write_str(out, name);
    push_char(out, '>');
    write_str(out, content);
    push_char(out, '<');
    push_char(out, '/');
    write_str(out, name);
    push_char(out, '>');
    push_char(out, '\n');
    assert(out@ =~= old(out)@ + raw_line(depth as int, name@, content@));
}

fn write_text_line(out: &mut String, depth: usize, name: &str, text: &str)
    ensures
        final(out)@ == old(out)@ + text_line(depth as int, name@, text@),
{
    proof {
        reveal(text_line);
    }
    let escaped = escape_xml(text);
    write_raw_line(out, depth, name, escaped.as_str());
}

fn write_opt_text_line(out: &mut String, depth: usize, name: &str, text: &Option<String>)
    ensures
        final(out)@ == old(out)@ + opt_text_line(depth as int, name@, *text),
{
    proof {
        reveal(opt_text_line);
    }
    match text {
        Some(t) => write_text_line(out, depth, name, t.as_str()),
        None => {
            assert(out@ =~= old(out)@ + Seq::<char>::empty());
        },
    }
}

fn write_opt_amount_line(out: &mut String, depth: usize, name: &str, cents: Option<u128>)
    ensures
        final(out)@ == old(out)@ + opt_amount_line(depth as int, name@, cents),
{
    proof {
        reveal(opt_amount_line);
    }
    match cents {
        Some(c) => {
            let amount = amount_string(c);
            write_raw_line(out, depth, name, amount.as_str());
        },
        None => {
            assert(out@ =~= old(out)@ + Seq::<char>::empty());
        },
    }
}

fn write_opt_bool_line(out: &mut String, depth: usize, name: &str, b: Option<bool>)
    ensures
        final(out)@ == old(out)@ + opt_bool_line(depth as int, name@, b),
{
    proof {
        reveal(opt_bool_line);
    }
    match b {
        Some(v) => {
            proof {
                reveal_strlit("true");
                reveal_strlit("false");
            }
            if v {
                write_raw_line(out, depth, name, "true");
            } else {
                write_raw_line(out, depth, name, "false");
            }
            assert("true"@ =~= bool_text(true));
            assert("false"@ =~= bool_text(false));
        },
        None => {
            assert(out@ =~= old(out)@ + Seq::<char>::empty());
        },
    }
}

fn write_scheme_name(
    out: &mut String,
    s: &Option<PersonIdentificationSchemeName1ChoiceType>,
    d: usize,
)
    requires
        d + 1 <= MAX_DEPTH,
    ensures
        final(out)@ == old(out)@ + scheme_name_text(*s, d as int),
{
    proof {
        reveal(scheme_name_text);
    }
    match s {
        Some(PersonIdentificationSchemeName1ChoiceType::Cd(c)) => {
            write_start(out, d, "SchmeNm");
            write_text_line(out, d + 1, "Cd", c.as_str());
            write_end(out, d, "SchmeNm");
        },
        Some(PersonIdentificationSchemeName1ChoiceType::Prtry(p)) => {
            write_start(out, d, "SchmeNm");
            write_text_line(out, d + 1, "Prtry", p.as_str());
            write_end(out, d, "SchmeNm");
        },
        None => {},
    }
    assert(out@ =~= old(out)@ + scheme_name_text(*s, d as int));
}

fn write_person_other(out: &mut String, g: &GenericPersonIdentification2Type, d: usize)
    requires
        d + 2 <= MAX_DEPTH,
    ensures
        final(out)@ == old(out)@ + person_other_text(*g, d as int),
{
    proof {
        reveal(person_other_text);
    }
    write_start(out, d, "Othr");
    write_text_line(out, d + 1, "Id", g.id.as_str());
    write_scheme_name(out, &g.schme_nm, d + 1);
    write_opt_text_line(out, d + 1, "Issr", &g.issr);
    write_end(out, d, "Othr");
    assert(out@ =~= old(out)@ + person_other_text(*g, d as int));
}

fn write_person_others(out: &mut String, v: &Vec<GenericPersonIdentification2Type>, d: usize)
    requires
        d + 2 <= MAX_DEPTH,
    ensures
        final(out)@ == old(out)@ + person_others_text(v@, d as int),
{
    let mut i: usize = 0;
    while i < v.len()
        invariant
            i <= v@.len(),
            d + 2 <= MAX_DEPTH,
            out@ == old(out)@ + person_others_text(v@.take(i as int), d as int),
        decreases v@.len() - i,
    {
        write_person_other(out, &v[i], d);
        assert(v@.take(i + 1).drop_last() =~= v@.take(i as int));
        i = i + 1;
        assert(out@ =~= old(out)@ + person_others_text(v@.take(i as int), d as int));
    }
    assert(v@.take(i as int) =~= v@);
}

fn write_party_id(out: &mut String, id: &Option<Party52ChoiceType>, d: usize)
    requires
        d + 4 <= MAX_DEPTH,
    ensures
        final(out)@ == old(out)@ + party_id_text(*id, d as int),
{
    proof {
        reveal(party_id_text);
    }
    match id {
        Some(Party52ChoiceType::OrgId(o)) => {
            write_start(out, d, "Id");
            write_start(out, d + 1, "OrgId");
            write_opt_text_line(out, d + 2, "AnyBIC", &o.any_bic);
            write_opt_text_line(out, d + 2, "LEI", &o.lei);
            write_end(out, d + 1, "OrgId");
            write_end(out, d, "Id");
        },
        Some(Party52ChoiceType::PrvtId(p)) => {
            write_start(out, d, "Id");
            write_start(out, d + 1, "PrvtId");
            write_person_others(out, &p.othr, d + 2);
            write_end(out, d + 1, "PrvtId");
            write_end(out, d, "Id");
        },
        None => {},
    }
    assert(out@ =~= old(out)@ + party_id_text(*id, d as int));
}

fn write_party(out: &mut String, p: &PartyIdentification272Type, name: &str, d: usize)
    requires
        d + 5 <= MAX_DEPTH,
    ensures
        final(out)@ == old(out)@ + party_text(*p, name@, d as int),
{
    proof {
        reveal(party_text);
    }
    write_start(out, d, name);
    write_opt_text_line(out, d + 1, "Nm", &p.nm);
    write_party_id(out, &p.id, d + 1);
    write_end(out, d, name);
    assert(out@ =~= old(out)@ + party_text(*p, name@, d as int));
}

fn write_group_header(out: &mut String, h: &GroupHeader118Type, d: usize)
    requires
        d + 6 <= MAX_DEPTH,
    ensures
        final(out)@ == old(out)@ + group_header_text(*h, d as int),
{
    proof {
        reveal(group_header_text);
    }
    write_start(out, d, "GrpHdr");
    write_text_line(out, d + 1, "MsgId", h.msg_id.as_str());
    write_text_line(out, d + 1, "CreDtTm", h.cre_dt_tm.as_str());
    write_text_line(out, d + 1, "NbOfTxs", h.nb_of_txs.as_str());
    write_opt_amount_line(out, d + 1, "CtrlSum", h.ctrl_sum);
    write_party(out, &h.initg_pty, "InitgPty", d + 1);
    write_end(out, d, "GrpHdr");
    assert(out@ =~= old(out)@ + group_header_text(*h, d as int));
}

fn write_account(out: &mut String, a: &CashAccount40Type, name: &str, d: usize)
    requires
        d + 3 <= MAX_DEPTH,
    ensures
        final(out)@ == old(out)@ + account_text(*a, name@, d as int),
{
    proof {
        reveal(account_text);
        reveal(account_id_text);
    }
    write_start(out, d, name);
    let ghost before_id = out@;
    match &a.id {
        Some(AccountIdentification4ChoiceType::Iban(i)) => {
            write_start(out, d + 1, "Id");
            write_text_line(out, d + 2, "IBAN", i.as_str());
            write_end(out, d + 1, "Id");
        },
        Some(AccountIdentification4ChoiceType::Othr(o)) => {
            write_start(out, d + 1, "Id");
            write_start(out, d + 2, "Othr");
            write_text_line(out, d + 3, "Id", o.id.as_str());
            write_end(out, d + 2, "Othr");
            write_end(out, d + 1, "Id");
        },
        None => {},
    }
    assert(out@ =~= before_id + account_id_text(a.id, d + 1));
    write_opt_text_line(out, d + 1, "Ccy", &a.ccy);
    write_opt_text_line(out, d + 1, "Nm", &a.nm);
    write_end(out, d, name);
    assert(out@ =~= old(out)@ + account_text(*a, name@, d as int));
}

fn write_agent(
    out: &mut String,
    a: &BranchAndFinancialInstitutionIdentification8Type,
    name: &str,
    d: usize,
)
    requires
        d + 3 <= MAX_DEPTH,
    ensures
        final(out)@ == old(out)@ + agent_text(*a, name@, d as int),
{
    proof {
        reveal(agent_text);
        reveal(institution_other_text);
    }
    let f = &a.fin_instn_id;
    write_start(out, d, name);
    write_start(out, d + 1, "FinInstnId");
    write_opt_text_line(out, d + 2, "BICFI", &f.bicfi);
    write_opt_text_line(out, d + 2, "LEI", &f.lei);
    write_opt_text_line(out, d + 2, "Nm", &f.nm);
    let ghost before_other = out@;
    match &f.othr {
        Some(g) => {
            write_start(out, d + 2, "Othr");
            write_text_line(out, d + 3, "Id", g.id.as_str());
            write_opt_text_line(out, d + 3, "Issr", &g.issr);
            write_end(out, d + 2, "Othr");
        },
        None => {},
    }
    assert(out@ =~= before_other + institution_other_text(f.othr, d + 2));
    write_end(out, d + 1, "FinInstnId");
    write_end(out, d, name);
    assert(out@ =~= old(out)@ + agent_text(*a, name@, d as int));
}

fn write_instructed_amount(out: &mut String, ccy: &str, cents: u64, d: usize)
    ensures
        final(out)@ == old(out)@ + instructed_amount_text(ccy@, cents as nat, d as int),
{
    proof {
        reveal(instructed_amount_text);
    }
    write_indent(out, d);
    write_str(out, "<InstdAmt Ccy=\"");
    let escaped = escape_xml(ccy);
    write_str(out, escaped.as_str());
    write_str(out, "\">");
    let amount = amount_string(cents as u128);
    write_str(out, amount.as_str());
    write_str(out, "</InstdAmt>\n");
    assert(out@ =~= old(out)@ + instructed_amount_text(ccy@, cents as nat, d as int));
}

fn write_unstructured(out: &mut String, v: &Vec<String>, d: usize)
    ensures
        final(out)@ == old(out)@ + unstructured_text(v@, d as int),
{
    let mut i: usize = 0;
    while i < v.len()
        invariant
            i <= v@.len(),
            out@ == old(out)@ + unstructured_text(v@.take(i as int), d as int),
        decreases v@.len() - i,
    {
        write_text_line(out, d, "Ustrd", v[i].as_str());
        assert(v@.take(i + 1).drop_last() =~= v@.take(i as int));
        i = i + 1;
        assert(out@ =~= old(out)@ + unstructured_text(v@.take(i as int), d as int));
    }
    assert(v@.take(i as int) =~= v@);
}

fn write_payment_id(out: &mut String, p: &PaymentIdentification6Type, d: usize)
    requires
        d + 1 <= MAX_DEPTH,
    ensures
        final(out)@ == old(out)@ + payment_id_text(*p, d as int),
{
    proof {
        reveal(payment_id_text);
    }
    write_start(out, d, "PmtId");
    write_opt_text_line(out, d + 1, "InstrId", &p.instr_id);
    write_text_line(out, d + 1, "EndToEndId", p.end_to_end_id.as_str());
    write_end(out, d, "PmtId");
    assert(out@ =~= old(out)@ + payment_id_text(*p, d as int));
}

fn write_mandate_info(out: &mut String, m: &Option<MandateRelatedInformation16Type>, d: usize)
    requires
        d + 1 <= MAX_DEPTH,
    ensures
        final(out)@ == old(out)@ + mandate_info_text(*m, d as int),
{
    proof {
        reveal(mandate_info_text);
    }
    match m {
        Some(i) => {
            write_start(out, d, "MndtRltdInf");
            write_opt_text_line(out, d + 1, "MndtId", &i.mndt_id);
            write_opt_text_line(out, d + 1, "DtOfSgntr", &i.dt_of_sgntr);
            write_end(out, d, "MndtRltdInf");
            assert(out@ =~= old(out)@ + mandate_info_text(*m, d as int));
        },
        None => {
            assert(out@ =~= old(out)@ + mandate_info_text(*m, d as int));
        },
    }
}

fn write_direct_debit(out: &mut String, t: &Option<DirectDebitTransaction12Type>, d: usize)
    requires
        d + 2 <= MAX_DEPTH,
    ensures
        final(out)@ == old(out)@ + direct_debit_text(*t, d as int),
{
    proof {
        reveal(direct_debit_text);
    }
    match t {
        Some(x) => {
            write_start(out, d, "DrctDbtTx");
            write_mandate_info(out, &x.mndt_rltd_inf, d + 1);
            write_end(out, d, "DrctDbtTx");
            assert(out@ =~= old(out)@ + direct_debit_text(*t, d as int));
        },
        None => {
            assert(out@ =~= old(out)@ + direct_debit_text(*t, d as int));
        },
    }
}

fn write_remittance(out: &mut String, r: &Option<RemittanceInformation22Type>, d: usize)
    requires
        d + 1 <= MAX_DEPTH,
    ensures
        final(out)@ == old(out)@ + remittance_text(*r, d as int),
{
    proof {
        reveal(remittance_text);
    }
    match r {
        Some(x) => {
            write_start(out, d, "RmtInf");
            write_unstructured(out, &x.ustrd, d + 1);
            write_end(out, d, "RmtInf");
            assert(out@ =~= old(out)@ + remittance_text(*r, d as int));
        },
        None => {
            assert(out@ =~= old(out)@ + remittance_text(*r, d as int));
        },
    }
}

fn write_transaction(out: &mut String, e: &DirectDebitTransactionInformation32Type, d: usize)
    requires
        d + 6 <= MAX_DEPTH,
    ensures
        final(out)@ == old(out)@ + transaction_text(*e, d as int),
{
    proof {
        reveal(transaction_text);
    }
    write_start(out, d, "DrctDbtTxInf");
    write_payment_id(out, &e.pmt_id, d + 1);
    write_instructed_amount(out, e.instd_amt.ccy.as_str(), e.instd_amt.content, d + 1);
    write_direct_debit(out, &e.drct_dbt_tx, d + 1);
    write_agent(out, &e.dbtr_agt, "DbtrAgt", d + 1);
    write_party(out, &e.dbtr, "Dbtr", d + 1);
    write_account(out, &e.dbtr_acct, "DbtrAcct", d + 1);
    write_remittance(out, &e.rmt_inf, d + 1);
    write_end(out, d, "DrctDbtTxInf");
    assert(out@ =~= old(out)@ + transaction_text(*e, d as int));
}

fn write_transactions(out: &mut String, v: &Vec<DirectDebitTransactionInformation32Type>, d: usize)
    requires
        d + 6 <= MAX_DEPTH,
    ensures
        final(out)@ == old(out)@ + transactions_text(v@, d as int),
{
    let mut i: usize = 0;
    while i < v.len()
        invariant
            i <= v@.len(),
            d + 6 <= MAX_DEPTH,
            out@ == old(out)@ + transactions_text(v@.take(i as int), d as int),
        decreases v@.len() - i,
    {
        write_transaction(out, &v[i], d);
        assert(v@.take(i + 1).drop_last() =~= v@.take(i as int));
        i = i + 1;
        assert(out@ =~= old(out)@ + transactions_text(v@.take(i as int), d as int));
    }
    assert(v@.take(i as int) =~= v@);
}

fn write_service_level(out: &mut String, s: &ServiceLevel8ChoiceType, d: usize)
    requires
        d + 1 <= MAX_DEPTH,
    ensures
        final(out)@ == old(out)@ + service_level_text(*s, d as int),
{
    proof {
        reveal(service_level_text);
    }
    write_start(out, d, "SvcLvl");
    match s {
        ServiceLevel8ChoiceType::Cd(c) => {
            write_text_line(out, d + 1, "Cd", c.as_str());
            write_end(out, d, "SvcLvl");
            assert(out@ =~= old(out)@ + service_level_text(*s, d as int));
        },
        ServiceLevel8ChoiceType::Prtry(p) => {
            write_text_line(out, d + 1, "Prtry", p.as_str());
            write_end(out, d, "SvcLvl");
            assert(out@ =~= old(out)@ + service_level_text(*s, d as int));
        },
    }
}

fn write_service_levels(out: &mut String, v: &Vec<ServiceLevel8ChoiceType>, d: usize)
    requires
        d + 1 <= MAX_DEPTH,
    ensures
        final(out)@ == old(out)@ + service_levels_text(v@, d as int),
{
    let mut i: usize = 0;
    while i < v.len()
        invariant
            i <= v@.len(),
            d + 1 <= MAX_DEPTH,
            out@ == old(out)@ + service_levels_text(v@.take(i as int), d as int),
        decreases v@.len() - i,
    {
        write_service_level(out, &v[i], d);
        assert(v@.take(i + 1).drop_last() =~= v@.take(i as int));
        i = i + 1;
        assert(out@ =~= old(out)@ + service_levels_text(v@.take(i as int), d as int));
    }
    assert(v@.take(i as int) =~= v@);
}

fn write_priority(out: &mut String, p: Option<Priority2CodeType>, d: usize)
    ensures
        final(out)@ == old(out)@ + opt_priority_line(d as int, p),
{
    proof {
        reveal(opt_priority_line);
        reveal_strlit("HIGH");
        reveal_strlit("NORM");
    }
    match p {
        Some(Priority2CodeType::High) => {
            write_raw_line(out, d, "InstrPrty", "HIGH");
            assert("HIGH"@ =~= priority_text(Priority2CodeType::High));
        },
        Some(Priority2CodeType::Norm) => {
            write_raw_line(out, d, "InstrPrty", "NORM");
            assert("NORM"@ =~= priority_text(Priority2CodeType::Norm));
        },
        None => {
            assert(out@ =~= old(out)@ + Seq::<char>::empty());
        },
    }
}

fn write_local_instrument(out: &mut String, l: &Option<LocalInstrument2ChoiceType>, d: usize)
    requires
        d + 1 <= MAX_DEPTH,
    ensures
        final(out)@ == old(out)@ + local_instrument_text(*l, d as int),
{
    proof {
        reveal(local_instrument_text);
    }
    match l {
        Some(LocalInstrument2ChoiceType::Cd(c)) => {
            write_start(out, d, "LclInstrm");
            write_text_line(out, d + 1, "Cd", c.as_str());
            write_end(out, d, "LclInstrm");
            assert(out@ =~= old(out)@ + local_instrument_text(*l, d as int));
        },
        Some(LocalInstrument2ChoiceType::Prtry(c)) => {
            write_start(out, d, "LclInstrm");
            write_text_line(out, d + 1, "Prtry", c.as_str());
            write_end(out, d, "LclInstrm");
            assert(out@ =~= old(out)@ + local_instrument_text(*l, d as int));
        },
        None => {
            assert(out@ =~= old(out)@ + local_instrument_text(*l, d as int));
        },
    }
}

fn write_payment_type(out: &mut String, p: &Option<PaymentTypeInformation29Type>, d: usize)
    requires
        d + 2 <= MAX_DEPTH,
    ensures
        final(out)@ == old(out)@ + payment_type_text(*p, d as int),
{
    proof {
        reveal(payment_type_text);
    }
    match p {
        Some(t) => {
            write_start(out, d, "PmtTpInf");
            write_priority(out, t.instr_prty, d + 1);
            write_service_levels(out, &t.svc_lvl, d + 1);
            write_local_instrument(out, &t.lcl_instrm, d + 1);
            write_sequence_type(out, t.seq_tp, d + 1);
            write_end(out, d, "PmtTpInf");
            assert(out@ =~= old(out)@ + payment_type_text(*p, d as int));
        },
        None => {
            assert(out@ =~= old(out)@ + payment_type_text(*p, d as int));
        },
    }
}

fn write_sequence_type(out: &mut String, s: Option<SequenceType3CodeType>, d: usize)
    ensures
        final(out)@ == old(out)@ + opt_sequence_type_line(d as int, s),
{
    proof {
        reveal(opt_sequence_type_line);
        reveal_strlit("FRST");
        reveal_strlit("RCUR");
        reveal_strlit("FNAL");
        reveal_strlit("OOFF");
        reveal_strlit("RPRE");
    }
    match s {
        Some(SequenceType3CodeType::Frst) => {
            write_raw_line(out, d, "SeqTp", "FRST");
            assert("FRST"@ =~= sequence_type_text(SequenceType3CodeType::Frst));
        },
        Some(SequenceType3CodeType::Rcur) => {
            write_raw_line(out, d, "SeqTp", "RCUR");
            assert("RCUR"@ =~= sequence_type_text(SequenceType3CodeType::Rcur));
        },
        Some(SequenceType3CodeType::Fnal) => {
            write_raw_line(out, d, "SeqTp", "FNAL");
            assert("FNAL"@ =~= sequence_type_text(SequenceType3CodeType::Fnal));
        },
        Some(SequenceType3CodeType::Ooff) => {
            write_raw_line(out, d, "SeqTp", "OOFF");
            assert("OOFF"@ =~= sequence_type_text(SequenceType3CodeType::Ooff));
        },
        Some(SequenceType3CodeType::Rpre) => {
            write_raw_line(out, d, "SeqTp", "RPRE");
            assert("RPRE"@ =~= sequence_type_text(SequenceType3CodeType::Rpre));
        },
        None => {
            assert(out@ =~= old(out)@ + Seq::<char>::empty());
        },
    }
}

fn write_payment_block(out: &mut String, p: &PaymentInstruction45Type, d: usize)
    requires
        d + 7 <= MAX_DEPTH,
    ensures
        final(out)@ == old(out)@ + payment_block_text(*p, d as int),
{
    proof {
        reveal(payment_block_text);
        reveal(opt_party_text);
    }
    write_start(out, d, "PmtInf");
    write_text_line(out, d + 1, "PmtInfId", p.pmt_inf_id.as_str());
    match p.pmt_mtd {
        PaymentMethod2CodeType::Dd => {
            write_raw_line(out, d + 1, "PmtMtd", "DD");
            proof {
                reveal_strlit("DD");
            }
            assert("DD"@ =~= payment_method_text(p.pmt_mtd));
        },
    }
    write_opt_bool_line(out, d + 1, "BtchBookg", p.btch_bookg);
    write_opt_text_line(out, d + 1, "NbOfTxs", &p.nb_of_txs);
    write_opt_amount_line(out, d + 1, "CtrlSum", p.ctrl_sum);
    write_payment_type(out, &p.pmt_tp_inf, d + 1);
    write_text_line(out, d + 1, "ReqdColltnDt", p.reqd_colltn_dt.as_str());
    write_party(out, &p.cdtr, "Cdtr", d + 1);
    write_account(out, &p.cdtr_acct, "CdtrAcct", d + 1);
    write_agent(out, &p.cdtr_agt, "CdtrAgt", d + 1);
    let ghost p0 = out@;
    match &p.cdtr_schme_id {
        Some(s) => write_party(out, s, "CdtrSchmeId", d + 1),
        None => {},
    }
    assert(out@ =~= p0 + opt_party_text(p.cdtr_schme_id, "CdtrSchmeId"@, d + 1));
    write_transactions(out, &p.drct_dbt_tx_inf, d + 1);
    write_end(out, d, "PmtInf");
    assert(out@ =~= old(out)@ + payment_block_text(*p, d as int));
}

fn write_payment_blocks(out: &mut String, v: &Vec<PaymentInstruction45Type>, d: usize)
    requires
        d + 7 <= MAX_DEPTH,
    ensures
        final(out)@ == old(out)@ + payment_blocks_text(v@, d as int),
{
    let mut i: usize = 0;
    while i < v.len()
        invariant
            i <= v@.len(),
            d + 7 <= MAX_DEPTH,
            out@ == old(out)@ + payment_blocks_text(v@.take(i as int), d as int),
        decreases v@.len() - i,
    {
        write_payment_block(out, &v[i], d);
        assert(v@.take(i + 1).drop_last() =~= v@.take(i as int));
        i = i + 1;
        assert(out@ =~= old(out)@ + payment_blocks_text(v@.take(i as int), d as int));
    }
    assert(v@.take(i as int) =~= v@);
}

/// The XML text of `doc`.
pub fn serialize_document(doc: &Document) -> (r: String)
    ensures
        r@ == document_text(*doc),
{
    proof {
        reveal(document_text);
        reveal(initiation_text);
    }
    let mut out = String::new();
    write_str(&mut out, "<?xml version=\"1.0\" encoding=\"UTF-8\"?>\n");
    write_str(&mut out, "<Document xmlns=\"");
    write_str(&mut out, PAIN_008_001_11_NAMESPACE);
    write_str(&mut out, "\">\n");
    let m = &doc.cstmr_drct_dbt_initn;
    write_start(&mut out, 1, "CstmrDrctDbtInitn");
    write_group_header(&mut out, &m.grp_hdr, 2);
    write_payment_blocks(&mut out, &m.pmt_inf, 2);
    write_end(&mut out, 1, "CstmrDrctDbtInitn");
    write_str(&mut out, "</Document>\n");
    assert(out@ =~= document_text(*doc));
    out
}

} // verus!
