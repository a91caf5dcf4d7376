//! Tags, stamps and their order.

use std::cmp::Ordering;

use migrant_lib::ledger::{check_saved_tag, load_applied};
use migrant_lib::order::compare;
use migrant_lib::precedence::{number_of_tag, place_of, precede, Precedence};
use migrant_lib::tag::{generated_tag_form, invalid_tag, validate, Dialect};
use migrant_lib::{EmbeddedMigration, ErrorKind, Migration, Stamp};

fn strings(items: &[&str]) -> Vec<String> {
    items.iter().map(|item| item.to_string()).collect()
}

fn units(tags: &[&str]) -> Vec<Migration> {
    let mut units = vec![];
    for tag in tags {
        let unit = EmbeddedMigration::with_tag(tag).expect("the tag is a name");
        units.push(*unit.boxed());
    }
    units
}

#[test]
fn names_are_lower_case_letters_digits_and_hyphens() {
    assert!(!invalid_tag("initial"));
    assert!(!invalid_tag("add-users-2"));
    assert!(!invalid_tag("-"));
    assert!(invalid_tag(""));
    assert!(invalid_tag("Initial"));
    assert!(invalid_tag("add_users"));
    assert!(invalid_tag("add users"));
    assert!(invalid_tag("caf\u{e9}"));
    assert!(invalid_tag("x;drop"));
}

#[test]
fn generated_tags_are_stamp_underscore_name() {
    assert!(generated_tag_form("20230101000000_init"));
    assert!(generated_tag_form("99999999999999_a-b"));
    assert!(!generated_tag_form("20230101000000_"));
    assert!(!generated_tag_form("20230101000000"));
    assert!(!generated_tag_form("2023010100000_init"));
    assert!(!generated_tag_form("202301010000000_init"));
    assert!(!generated_tag_form("20230101000000-init"));
    assert!(!generated_tag_form("2023010100000a_init"));
    assert!(!generated_tag_form("20230101000000_Init"));
    assert!(!generated_tag_form("x20230101000000_init"));
    assert!(!generated_tag_form("20230101000000_init!"));
    assert!(!generated_tag_form("init"));
    assert!(!generated_tag_form(""));
}

#[test]
fn validate_goes_by_the_dialect() {
    assert!(validate("init", Dialect::Explicit).is_ok());
    assert!(validate("20230101000000_init", Dialect::Generated).is_ok());
    let error = validate("20230101000000_init", Dialect::Explicit).expect_err("an underscore");
    assert_eq!(error.kind(), ErrorKind::TagError);
    let error = validate("init", Dialect::Generated).expect_err("no stamp");
    assert_eq!(error.kind(), ErrorKind::TagError);
    assert_eq!(
        error.to_string(),
        "TagError: Invalid tag `init`. Generated tags must follow [0-9]{14}_[a-z0-9-]+"
    );
}

#[test]
fn a_stamp_is_fourteen_digits_that_are_a_time() {
    let stamp = Stamp::parse("20230101000000").expect("a time");
    assert_eq!(stamp.as_str(), "20230101000000");
    assert_eq!(stamp.value(), 20230101000000);
    assert_eq!(Stamp::parse("20231231235959").expect("a time").value(), 20231231235959);
    assert_eq!(Stamp::parse("00010101000000").expect("a time").value(), 10101000000);
    assert_eq!(Stamp::parse("19700101000000").expect("a time").seconds(), 0);
    assert_eq!(Stamp::parse("19700101000100").expect("a time").seconds(), 60);
    assert_eq!(Stamp::parse("20230101000000").expect("a time").seconds(), 1672531200);
    assert_eq!(Stamp::parse("19691231235959").expect("a time").seconds(), -1);

    for text in [
        "",
        "2023",
        "2023010100000",
        "202301010000000",
        "2023-01-01 0000",
        " 0230101000000",
        "20231301000000",
        "20230230000000",
        "20230101240000",
        "20230101006000",
        "20230100000000",
    ] {
        let error = Stamp::parse(text).expect_err(text);
        assert_eq!(error.kind(), ErrorKind::TagError);
    }
}

#[test]
fn stamps_are_ordered_by_their_numbers() {
    let early = Stamp::parse("20230101000000").expect("a time");
    let late = Stamp::parse("20230101000001").expect("a time");
    assert!(early.before(&late));
    assert!(!late.before(&early));
    assert!(!early.before(&early.clone()));
}

#[test]
fn stored_tags_are_checked_against_the_dialect() {
    assert!(check_saved_tag(true, "init").is_ok());
    assert!(check_saved_tag(false, "20230101000000_init").is_ok());
    let error = check_saved_tag(true, "20230101000000_init").expect_err("not a name");
    assert_eq!(error.kind(), ErrorKind::Migration);
    let error = check_saved_tag(false, "init").expect_err("not generated");
    assert_eq!(error.kind(), ErrorKind::Migration);
    assert_eq!(
        error.to_string(),
        "MigrationError: Found a non-conforming tag in the database: `init`. Generated tags must follow [0-9]{14}_[a-z0-9-]"
    );
}

#[test]
fn registered_ledgers_keep_the_order_of_the_database() {
    let stored = strings(&["zeta", "alpha", "mid"]);
    assert_eq!(load_applied(true, true, &stored).expect("names"), stored);
    assert_eq!(load_applied(true, true, &[]).expect("empty"), Vec::<String>::new());
}

#[test]
fn generated_ledgers_are_ordered_by_stamp() {
    let stored = strings(&[
        "20230301000000_c",
        "20230101000000_a",
        "20230201000000_b",
        "20230101000000_z",
    ]);
    assert_eq!(
        load_applied(false, true, &stored).expect("generated tags"),
        strings(&[
            "20230101000000_a",
            "20230101000000_z",
            "20230201000000_b",
            "20230301000000_c"
        ])
    );
}

#[test]
fn a_load_fails_on_a_missing_table_or_a_bad_tag() {
    let error = load_applied(true, false, &strings(&["a"])).expect_err("no table");
    assert_eq!(error.kind(), ErrorKind::Migration);
    assert!(error.to_string().contains("`__migrant_migrations` table is missing"));

    let error = load_applied(true, true, &strings(&["a", "B"])).expect_err("not a name");
    assert_eq!(error.kind(), ErrorKind::Migration);

    let error = load_applied(false, true, &strings(&["20230101000000_a", "b"]))
        .expect_err("not generated");
    assert_eq!(error.kind(), ErrorKind::Migration);

    let error = load_applied(false, true, &strings(&["20231301000000_a"]))
        .expect_err("no such month");
    assert_eq!(error.kind(), ErrorKind::TagError);
}

#[test]
fn generated_tags_compare_by_stamp() {
    assert_eq!(
        compare("20230101000000_b", "20230102000000_a", None).expect("two tags"),
        Ordering::Less
    );
    assert_eq!(
        compare("20230102000000_a", "20230101000000_b", None).expect("two tags"),
        Ordering::Greater
    );
    assert_eq!(
        compare("20230101000000_a", "20230101000000_b", None).expect("two tags"),
        Ordering::Equal
    );
    let error = compare("a", "20230101000000_b", None).expect_err("no stamp");
    assert_eq!(error.kind(), ErrorKind::TagError);
    let error = compare("20230101000000_b", "20231301000000_a", None).expect_err("no time");
    assert_eq!(error.kind(), ErrorKind::TagError);
}

#[test]
fn registered_tags_compare_by_place_not_by_letter() {
    let source = units(&["zeta", "alpha", "mid"]);
    assert_eq!(compare("zeta", "alpha", Some(&source)).expect("two tags"), Ordering::Less);
    assert_eq!(compare("mid", "alpha", Some(&source)).expect("two tags"), Ordering::Greater);
    assert_eq!(compare("mid", "mid", Some(&source)).expect("two tags"), Ordering::Equal);
    assert_eq!(precede("alpha", "mid", Some(&source)).expect("two tags"), Precedence::Before);
    let error = compare("zeta", "gone", Some(&source)).expect_err("not in the source");
    assert_eq!(error.kind(), ErrorKind::MigrationNotFound);
}

#[test]
fn places_and_numbers_of_tags() {
    let source = units(&["a", "b", "c"]);
    assert_eq!(place_of(&source, "a"), Some(0));
    assert_eq!(place_of(&source, "c"), Some(2));
    assert_eq!(place_of(&source, "d"), None);
    assert_eq!(number_of_tag("20230101000000_init"), Some(20230101000000));
    assert_eq!(number_of_tag("init"), None);
    assert_eq!(number_of_tag("20230230000000_init"), None);
}
