use green3neo::calendar::{Date, DateTime};
use green3neo::database::{
    column_type_from_rows, convert_array_type, get_dummy_member, ColumnTypeRequestResult, Member,
};
use green3neo::domain::{Creditor, CreditorID, Mandate, MandateID, Name, IBAN};
use green3neo::generation::{
    control_sum, generate_creditor_account, generate_creditor_info, generate_creditor_scheme_id,
    generate_group_header, generate_mandate_info, generate_sepa_document_type,
};
use green3neo::logging::{counts_as_severe, error, info, starts_with, warn, Level};
use green3neo::schema::{AccountIdentification4ChoiceType, Party52ChoiceType};
use green3neo::text::{amount_string, decimal_text};

#[test]
fn amounts_use_the_shortest_notation() {
    assert_eq!(amount_string(4200), "42");
    assert_eq!(amount_string(4250), "42.5");
    assert_eq!(amount_string(4205), "42.05");
    assert_eq!(amount_string(0), "0");
    assert_eq!(amount_string(7), "0.07");
    assert_eq!(amount_string(123456789), "1234567.89");
}

#[test]
fn decimal_notation() {
    assert_eq!(decimal_text(0), "0");
    assert_eq!(decimal_text(9), "9");
    assert_eq!(decimal_text(10), "10");
    assert_eq!(decimal_text(u128::MAX), u128::MAX.to_string());
}

#[test]
fn dates_are_checked() {
    assert!(Date::new(2024, 2, 29).is_some());
    assert!(Date::new(2023, 2, 29).is_none());
    assert!(Date::new(1900, 2, 29).is_none());
    assert!(Date::new(2000, 2, 29).is_some());
    assert!(Date::new(2024, 4, 31).is_none());
    assert!(Date::new(2024, 13, 1).is_none());
    assert!(Date::new(2024, 0, 1).is_none());
    assert!(Date::new(10000, 1, 1).is_none());
    assert!(Date::new(-1, 1, 1).is_none());
    let d = Date::new(2024, 12, 31).unwrap();
    assert!(DateTime::new(d, 23, 59, 59).is_some());
    assert!(DateTime::new(d, 24, 0, 0).is_none());
    assert!(DateTime::new(d, 0, 60, 0).is_none());
}

#[test]
fn mandate_date_is_iso() {
    let mandate = Mandate {
        id: MandateID { value: String::from("M-1") },
        date_of_signature: Date::new(987, 3, 4).unwrap(),
    };
    let info = generate_mandate_info(&mandate);
    assert_eq!(info.mndt_id.as_deref(), Some("M-1"));
    assert_eq!(info.dt_of_sgntr.as_deref(), Some("0987-03-04"));
}

#[test]
fn group_header_fields() {
    let created = DateTime::new(Date::new(2025, 1, 2).unwrap(), 3, 4, 5).unwrap();
    let h = generate_group_header(String::from("m"), &created, 3, 12345);
    assert_eq!(h.msg_id, "m");
    assert_eq!(h.cre_dt_tm, "2025-01-02T03:04:05Z");
    assert_eq!(h.nb_of_txs, "3");
    assert_eq!(h.ctrl_sum, Some(12345));
    assert!(h.initg_pty.nm.is_none() && h.initg_pty.id.is_none());
}

#[test]
fn creditor_parts() {
    let info = generate_creditor_info("Gary Gathering");
    assert_eq!(info.nm.as_deref(), Some("Gary Gathering"));
    let account = generate_creditor_account(IBAN { iban: String::from("DE07") });
    assert!(matches!(account.id, Some(AccountIdentification4ChoiceType::Iban(ref i)) if i == "DE07"));
    let scheme = generate_creditor_scheme_id(CreditorID { value: String::from("DE98ZZZ") });
    match scheme.id {
        Some(Party52ChoiceType::PrvtId(p)) => {
            assert_eq!(p.othr.len(), 1);
            assert_eq!(p.othr[0].id, "DE98ZZZ");
        }
        _ => panic!("no private identification"),
    }
}

#[test]
fn document_for_no_transactions() {
    let d = Date::new(2026, 3, 15).unwrap();
    let creditor = Creditor {
        name: Name { value: String::from("C") },
        id: CreditorID { value: String::from("I") },
        iban: IBAN { iban: String::from("B") },
    };
    let doc = generate_sepa_document_type(
        String::from("m"),
        DateTime::new(d, 0, 0, 0).unwrap(),
        d,
        creditor,
        vec![],
    );
    let block = &doc.cstmr_drct_dbt_initn.pmt_inf[0];
    assert_eq!(doc.cstmr_drct_dbt_initn.pmt_inf.len(), 1);
    assert_eq!(block.nb_of_txs.as_deref(), Some("0"));
    assert_eq!(block.ctrl_sum, Some(0));
    assert!(block.drct_dbt_tx_inf.is_empty());
    assert_eq!(block.reqd_colltn_dt, "03/15/26");
    assert_eq!(control_sum(&vec![]), 0);
}

#[test]
fn array_types() {
    assert_eq!(convert_array_type("_int4"), Some("integer"));
    assert_eq!(convert_array_type("_text"), None);
    assert_eq!(convert_array_type(""), None);
}

fn row(data_type: &str, udt_name: &str, nullable: &str) -> ColumnTypeRequestResult {
    ColumnTypeRequestResult {
        column_name: String::from("col"),
        data_type: String::from(data_type),
        udt_name: String::from(udt_name),
        is_nullable: String::from(nullable),
    }
}

#[test]
fn column_types_from_rows() {
    let plain = column_type_from_rows(vec![row("integer", "int4", "NO")]).unwrap();
    assert_eq!(plain.column_name, "col");
    assert_eq!(plain.data_type, "integer");
    assert!(!plain.is_array && !plain.is_nullable);
    let array = column_type_from_rows(vec![row("ARRAY", "_int4", "YES")]).unwrap();
    assert_eq!(array.data_type, "integer");
    assert!(array.is_array && array.is_nullable);
    assert!(column_type_from_rows(vec![row("ARRAY", "_text", "YES")]).is_none());
    assert!(column_type_from_rows(vec![]).is_none());
    assert!(column_type_from_rows(vec![row("text", "", "NO"), row("text", "", "NO")]).is_none());
}

#[test]
fn log_levels() {
    let i = info(String::from("a"));
    assert_eq!(i.level, Level::Info);
    assert_eq!(i.message, "a");
    assert_eq!(warn(String::from("b")).level, Level::Warn);
    let e = error(String::from("c"));
    assert_eq!(e.level, Level::Error);
    assert_eq!(e.message, "c");
}

#[test]
fn dummy_member() {
    assert_eq!(get_dummy_member(), Member);
}

#[test]
fn severe_messages() {
    assert!(counts_as_severe(Level::Error, "boom"));
    assert!(counts_as_severe(Level::Warn, "careful"));
    assert!(!counts_as_severe(Level::Info, "fine"));
    assert!(!counts_as_severe(Level::Debug, "detail"));
    assert!(!counts_as_severe(
        Level::Warn,
        "slow statement: execution time exceeded alert threshold: 2s"
    ));
    assert!(counts_as_severe(Level::Warn, "slow statement"));
    assert!(starts_with("abc", ""));
    assert!(starts_with("abc", "ab"));
    assert!(!starts_with("ab", "abc"));
    assert!(!starts_with("xbc", "ab"));
}
