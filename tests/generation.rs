use green3neo::calendar::{Date, DateTime};
use green3neo::domain::{
    Creditor, CreditorID, Debitor, Mandate, MandateID, Name, Purpose, Transaction, IBAN,
};
use green3neo::generation::{generate_sepa_document, render_sepa_document};
use green3neo::schema::{
    AccountIdentification4ChoiceType, ActiveOrHistoricCurrencyAndAmountType,
    BranchAndFinancialInstitutionIdentification8Type, CashAccount40Type,
    CustomerDirectDebitInitiationV11Type, DirectDebitTransaction12Type,
    DirectDebitTransactionInformation32Type, Document, FinancialInstitutionIdentification23Type,
    GenericFinancialIdentification1Type, GenericPersonIdentification2Type, GroupHeader118Type,
    LocalInstrument2ChoiceType, MandateRelatedInformation16Type, Party52ChoiceType,
    PartyIdentification272Type, PaymentIdentification6Type, PaymentInstruction45Type,
    PaymentMethod2CodeType, PaymentTypeInformation29Type, PersonIdentification18Type,
    PersonIdentificationSchemeName1ChoiceType, Priority2CodeType, RemittanceInformation22Type,
    SequenceType3CodeType, ServiceLevel8ChoiceType,
};
use green3neo::xml::serialize_document;

fn date(year: i32, month: u32, day: u32) -> Date {
    Date::new(year, month, day).unwrap()
}

fn at_midnight(d: Date) -> DateTime {
    DateTime::new(d, 0, 0, 0).unwrap()
}

fn gary() -> Creditor {
    Creditor {
        name: Name { value: String::from("Gary Gathering") },
        id: CreditorID { value: String::from("DE98ZZZ09999999999") },
        iban: IBAN { iban: String::from("DE07123412341234123412") },
    }
}

fn transaction(name: &str, iban: &str, mandate: &str, cents: u64, purpose: &str) -> Transaction {
    Transaction {
        debitor: Debitor {
            name: Name { value: String::from(name) },
            iban: IBAN { iban: String::from(iban) },
            mandate: Mandate {
                id: MandateID { value: String::from(mandate) },
                date_of_signature: date(2024, 12, 12),
            },
        },
        value: cents,
        purpose: Purpose { value: String::from(purpose) },
    }
}

fn paula(cents: u64, purpose: &str) -> Transaction {
    transaction("Paying, Paula", "DE89370400440532013000", "fancyMandateID", cents, purpose)
}

fn render(transactions: Vec<Transaction>) -> String {
    render_sepa_document(
        String::from("demo_msg_id"),
        at_midnight(date(2025, 12, 30)),
        DateTime::new(date(2026, 3, 15), 17, 45, 3).unwrap(),
        gary(),
        transactions,
    )
}

fn placeholder_agent() -> BranchAndFinancialInstitutionIdentification8Type {
    BranchAndFinancialInstitutionIdentification8Type {
        fin_instn_id: FinancialInstitutionIdentification23Type {
            bicfi: None,
            lei: None,
            nm: None,
            othr: Some(GenericFinancialIdentification1Type {
                id: String::from("NOTPROVIDED"),
                issr: None,
            }),
        },
    }
}

#[test]
fn test_generate_sepa_xml() {
    let document = Document {
        cstmr_drct_dbt_initn: CustomerDirectDebitInitiationV11Type {
            grp_hdr: GroupHeader118Type {
                msg_id: String::from("demo_msg_id"),
                cre_dt_tm: String::from("2025-12-30T00:00:00Z"),
                nb_of_txs: String::from("1"),
                ctrl_sum: Some(4200),
                initg_pty: PartyIdentification272Type { nm: None, id: None },
            },
            pmt_inf: vec![PaymentInstruction45Type {
                pmt_inf_id: String::from("Fancy payment information ID"),
                pmt_mtd: PaymentMethod2CodeType::Dd,
                btch_bookg: Some(true),
                nb_of_txs: Some(String::from("1")),
                ctrl_sum: Some(4200),
                pmt_tp_inf: Some(PaymentTypeInformation29Type {
                    instr_prty: Some(Priority2CodeType::Norm),
                    svc_lvl: vec![ServiceLevel8ChoiceType::Cd(String::from("SEPA"))],
                    lcl_instrm: Some(LocalInstrument2ChoiceType::Cd(String::from("CORE"))),
                    seq_tp: Some(SequenceType3CodeType::Rcur),
                }),
                reqd_colltn_dt: String::from("12/30/25"),
                cdtr: PartyIdentification272Type {
                    nm: Some(String::from("Gary Gathering")),
                    id: None,
                },
                cdtr_acct: CashAccount40Type {
                    id: Some(AccountIdentification4ChoiceType::Iban(String::from(
                        "DE07123412341234123412",
                    ))),
                    ccy: None,
                    nm: None,
                },
                cdtr_agt: placeholder_agent(),
                cdtr_schme_id: Some(PartyIdentification272Type {
                    nm: None,
                    id: Some(Party52ChoiceType::PrvtId(PersonIdentification18Type {
                        othr: vec![GenericPersonIdentification2Type {
                            id: String::from("DE98ZZZ09999999999"),
                            issr: None,
                            schme_nm: Some(PersonIdentificationSchemeName1ChoiceType::Prtry(
                                String::from("SEPA"),
                            )),
                        }],
                    })),
                }),
                drct_dbt_tx_inf: vec![DirectDebitTransactionInformation32Type {
                    pmt_id: PaymentIdentification6Type {
                        instr_id: None,
                        end_to_end_id: String::from("NOTPROVIDED"),
                    },
                    instd_amt: ActiveOrHistoricCurrencyAndAmountType {
                        ccy: String::from("EUR"),
                        content: 4200,
                    },
                    drct_dbt_tx: Some(DirectDebitTransaction12Type {
                        mndt_rltd_inf: Some(MandateRelatedInformation16Type {
                            mndt_id: Some(String::from("fancyMandateID")),
                            dt_of_sgntr: Some(String::from("2024-12-12")),
                        }),
                    }),
                    dbtr_agt: placeholder_agent(),
                    dbtr: PartyIdentification272Type {
                        nm: Some(String::from("Paying, Paula")),
                        id: None,
                    },
                    dbtr_acct: CashAccount40Type {
                        id: Some(AccountIdentification4ChoiceType::Iban(String::from(
                            "DE89370400440532013000",
                        ))),
                        ccy: None,
                        nm: None,
                    },
                    rmt_inf: Some(RemittanceInformation22Type {
                        ustrd: vec![String::from("Some reason for collecting money")],
                    }),
                }],
            }],
        },
    };

    let written = serialize_document(&document);
    let generated = render_sepa_document(
        String::from("demo_msg_id"),
        at_midnight(date(2025, 12, 30)),
        at_midnight(date(2025, 12, 30)),
        gary(),
        vec![paula(4200, "Some reason for collecting money")],
    );
    assert_eq!(written, generated);
    assert!(written.starts_with("<?xml version=\"1.0\" encoding=\"UTF-8\"?>\n<Document xmlns=\"urn:iso:std:iso:20022:tech:xsd:pain.008.001.11\">\n"));
    assert!(written.ends_with("</Document>\n"));
}

#[test]
fn identical_inputs_give_identical_text() {
    let first = render(vec![paula(4200, "Some unknown reason for collecting money")]);
    let second = render(vec![paula(4200, "Some unknown reason for collecting money")]);
    assert_eq!(first, second);
}

#[test]
fn one_transaction_scenario() {
    let text = render(vec![paula(4200, "Some unknown reason for collecting money")]);
    assert_eq!(text.matches("<PmtInf>").count(), 1);
    assert_eq!(text.matches("<NbOfTxs>1</NbOfTxs>").count(), 2);
    assert_eq!(text.matches("<CtrlSum>42</CtrlSum>").count(), 2);
    assert_eq!(text.matches("<DrctDbtTxInf>").count(), 1);
    assert!(text.contains("<InstdAmt Ccy=\"EUR\">42</InstdAmt>"));
    assert!(text.contains("<MndtId>fancyMandateID</MndtId>"));
    assert!(text.contains("<DtOfSgntr>2024-12-12</DtOfSgntr>"));
    assert!(text.contains("<Ustrd>Some unknown reason for collecting money</Ustrd>"));
    assert!(text.contains("<Nm>Paying, Paula</Nm>"));
    assert!(text.contains("<IBAN>DE89370400440532013000</IBAN>"));
    assert!(text.contains("<IBAN>DE07123412341234123412</IBAN>"));
    assert!(text.contains("<Nm>Gary Gathering</Nm>"));
    assert!(text.contains("<Id>DE98ZZZ09999999999</Id>"));
    assert!(text.contains("<Prtry>SEPA</Prtry>"));
}

#[test]
fn collection_date_drops_the_time_of_day() {
    let text = render(vec![paula(4200, "x")]);
    assert!(text.contains("<ReqdColltnDt>03/15/26</ReqdColltnDt>"));
}

#[test]
fn creation_time_is_rfc3339_utc() {
    let text = render(vec![]);
    assert!(text.contains("<CreDtTm>2025-12-30T00:00:00Z</CreDtTm>"));
    assert!(text.contains("<MsgId>demo_msg_id</MsgId>"));
}

#[test]
fn zero_transactions() {
    let text = render(vec![]);
    assert_eq!(text.matches("<NbOfTxs>0</NbOfTxs>").count(), 2);
    assert_eq!(text.matches("<CtrlSum>0</CtrlSum>").count(), 2);
    assert_eq!(text.matches("<PmtInf>").count(), 1);
    assert!(!text.contains("DrctDbtTxInf"));
    assert_eq!(text.matches("NOTPROVIDED").count(), 1);
}

#[test]
fn control_sum_adds_all_amounts() {
    let text = render(vec![
        paula(4250, "a"),
        transaction("Bert", "DE11", "m2", 1005, "b"),
        transaction("Carla", "DE22", "m3", 1, "c"),
    ]);
    assert_eq!(text.matches("<CtrlSum>52.56</CtrlSum>").count(), 2);
    assert!(text.contains("<InstdAmt Ccy=\"EUR\">42.5</InstdAmt>"));
    assert!(text.contains("<InstdAmt Ccy=\"EUR\">10.05</InstdAmt>"));
    assert!(text.contains("<InstdAmt Ccy=\"EUR\">0.01</InstdAmt>"));
}

#[test]
fn count_is_the_number_of_transactions() {
    let transactions: Vec<Transaction> =
        (0..12).map(|i| transaction("N", "DE", "M", 100 + i, "p")).collect();
    let text = render(transactions);
    assert_eq!(text.matches("<NbOfTxs>12</NbOfTxs>").count(), 2);
    assert_eq!(text.matches("<DrctDbtTxInf>").count(), 12);
}

#[test]
fn entries_keep_the_input_order() {
    let text = render(vec![
        transaction("Zoe", "DE03", "m3", 300, "third"),
        transaction("Adam", "DE01", "m1", 100, "first"),
        transaction("Mia", "DE02", "m2", 200, "second"),
    ]);
    let zoe = text.find("<Nm>Zoe</Nm>").unwrap();
    let adam = text.find("<Nm>Adam</Nm>").unwrap();
    let mia = text.find("<Nm>Mia</Nm>").unwrap();
    assert!(zoe < adam && adam < mia);
    let third = text.find("<Ustrd>third</Ustrd>").unwrap();
    let first = text.find("<Ustrd>first</Ustrd>").unwrap();
    assert!(third < first);
}

#[test]
fn fixed_fields_are_always_written() {
    let text = render(vec![paula(4200, "a"), transaction("Bert", "DE11", "m2", 700, "b")]);
    assert!(text.contains("<PmtMtd>DD</PmtMtd>"));
    assert!(text.contains("<BtchBookg>true</BtchBookg>"));
    assert!(text.contains("<InstrPrty>NORM</InstrPrty>"));
    assert!(text.contains("<SvcLvl>\n                    <Cd>SEPA</Cd>"));
    assert!(text.contains("<LclInstrm>\n                    <Cd>CORE</Cd>"));
    assert!(text.contains("<SeqTp>RCUR</SeqTp>"));
    assert_eq!(text.matches("Ccy=\"EUR\"").count(), 2);
    assert!(text.contains("<PmtInfId>Fancy payment information ID</PmtInfId>"));
}

#[test]
fn placeholders_in_every_document() {
    let text = render(vec![paula(4200, "a"), transaction("Bert", "DE11", "m2", 700, "b")]);
    assert_eq!(text.matches("<EndToEndId>NOTPROVIDED</EndToEndId>").count(), 2);
    assert_eq!(text.matches("NOTPROVIDED").count(), 5);
    assert!(text.contains("<CdtrAgt>\n                <FinInstnId>\n                    <Othr>\n                        <Id>NOTPROVIDED</Id>"));
}

#[test]
fn markup_in_values_is_escaped() {
    let text = render(vec![transaction("Smith & <Sons>", "DE\"1'", "m", 100, "a&b")]);
    assert!(text.contains("<Nm>Smith &amp; &lt;Sons&gt;</Nm>"));
    assert!(text.contains("<IBAN>DE&quot;1&apos;</IBAN>"));
    assert!(text.contains("<Ustrd>a&amp;b</Ustrd>"));
}

#[test]
fn indentation_is_four_spaces_per_level() {
    let text = render(vec![]);
    assert!(text.contains("\n    <CstmrDrctDbtInitn>\n        <GrpHdr>\n            <MsgId>"));
}

#[test]
fn generation_uses_the_clock() {
    let result = generate_sepa_document(
        String::from("clocked"),
        DateTime::new(date(2026, 3, 15), 9, 30, 0).unwrap(),
        gary(),
        vec![paula(4200, "a")],
    );
    let text = result.unwrap();
    assert!(text.contains("<MsgId>clocked</MsgId>"));
    let start = text.find("<CreDtTm>").unwrap() + "<CreDtTm>".len();
    let stamp = &text[start..start + 20];
    assert!(stamp.ends_with('Z'));
    assert_eq!(&stamp[10..11], "T");
    assert!(text.contains("<ReqdColltnDt>03/15/26</ReqdColltnDt>"));
}
