use pastebin_client::{ExpirationDate, VisibilityLevel};

fn all_dates() -> Vec<ExpirationDate> {
    vec![
        ExpirationDate::Never,
        ExpirationDate::TenMinutes,
        ExpirationDate::OneHour,
        ExpirationDate::OneDay,
        ExpirationDate::OneWeek,
        ExpirationDate::TwoWeeks,
        ExpirationDate::OneMonth,
        ExpirationDate::SixMonth,
        ExpirationDate::OneYear,
    ]
}

#[test]
fn visibility_reads_public_in_any_case() {
    assert_eq!(VisibilityLevel::from("PUBLIC".to_string()), Some(VisibilityLevel::Public));
    assert_eq!(VisibilityLevel::from("public".to_string()), Some(VisibilityLevel::Public));
    assert_eq!(VisibilityLevel::from("PuBlIc".to_string()), Some(VisibilityLevel::Public));
    assert_eq!(VisibilityLevel::from("0".to_string()), Some(VisibilityLevel::Public));
}

#[test]
fn visibility_reads_unlisted_in_any_case() {
    assert_eq!(VisibilityLevel::from("unlisted".to_string()), Some(VisibilityLevel::Unlisted));
    assert_eq!(VisibilityLevel::from("UNLISTED".to_string()), Some(VisibilityLevel::Unlisted));
    assert_eq!(VisibilityLevel::from("Unlisted".to_string()), Some(VisibilityLevel::Unlisted));
    assert_eq!(VisibilityLevel::from("1".to_string()), Some(VisibilityLevel::Unlisted));
}

#[test]
fn visibility_rejects_other_input() {
    assert_eq!(VisibilityLevel::from("bogus".to_string()), None);
    assert_eq!(VisibilityLevel::from("".to_string()), None);
    assert_eq!(VisibilityLevel::from("2".to_string()), None);
    assert_eq!(VisibilityLevel::from("private".to_string()), None);
    assert_eq!(VisibilityLevel::from("publi".to_string()), None);
    assert_eq!(VisibilityLevel::from("publicc".to_string()), None);
}

#[test]
fn visibility_trims_no_whitespace() {
    assert_eq!(VisibilityLevel::from(" public".to_string()), None);
    assert_eq!(VisibilityLevel::from("public ".to_string()), None);
    assert_eq!(VisibilityLevel::from("0\n".to_string()), None);
    assert_eq!(VisibilityLevel::from("\t1".to_string()), None);
}

#[test]
fn visibility_rejects_lookalike_letters() {
    // Full-width letters lowercase to full-width letters, not to ASCII.
    assert_eq!(VisibilityLevel::from("\u{ff30}ublic".to_string()), None);
    assert_eq!(VisibilityLevel::from("publ\u{130}c".to_string()), None);
}

#[test]
fn visibility_lowercase_reader_is_exact() {
    assert_eq!(VisibilityLevel::from_lowercase("public"), Some(VisibilityLevel::Public));
    assert_eq!(VisibilityLevel::from_lowercase("0"), Some(VisibilityLevel::Public));
    assert_eq!(VisibilityLevel::from_lowercase("unlisted"), Some(VisibilityLevel::Unlisted));
    assert_eq!(VisibilityLevel::from_lowercase("1"), Some(VisibilityLevel::Unlisted));
    assert_eq!(VisibilityLevel::from_lowercase("PUBLIC"), None);
    assert_eq!(VisibilityLevel::from_lowercase("Unlisted"), None);
    assert_eq!(VisibilityLevel::from_lowercase(""), None);
}

#[test]
fn visibility_wire_codes() {
    assert_eq!(VisibilityLevel::Public.encode(), "0");
    assert_eq!(VisibilityLevel::Unlisted.encode(), "1");
}

#[test]
fn visibility_code_reads_back() {
    for level in [VisibilityLevel::Public, VisibilityLevel::Unlisted] {
        assert_eq!(VisibilityLevel::from(level.encode().to_string()), Some(level));
    }
}

#[test]
fn expiration_wire_codes() {
    assert_eq!(ExpirationDate::Never.inspect(), "N");
    assert_eq!(ExpirationDate::TenMinutes.inspect(), "10M");
    assert_eq!(ExpirationDate::OneHour.inspect(), "1H");
    assert_eq!(ExpirationDate::OneDay.inspect(), "1D");
    assert_eq!(ExpirationDate::OneWeek.inspect(), "1W");
    assert_eq!(ExpirationDate::TwoWeeks.inspect(), "2W");
    assert_eq!(ExpirationDate::OneMonth.inspect(), "1M");
    assert_eq!(ExpirationDate::SixMonth.inspect(), "6M");
    assert_eq!(ExpirationDate::OneYear.inspect(), "1Y");
}

#[test]
fn expiration_reads_each_lowercase_code() {
    assert_eq!(ExpirationDate::from("n".to_string()), Some(ExpirationDate::Never));
    assert_eq!(ExpirationDate::from("10m".to_string()), Some(ExpirationDate::TenMinutes));
    assert_eq!(ExpirationDate::from("1h".to_string()), Some(ExpirationDate::OneHour));
    assert_eq!(ExpirationDate::from("1d".to_string()), Some(ExpirationDate::OneDay));
    assert_eq!(ExpirationDate::from("1w".to_string()), Some(ExpirationDate::OneWeek));
    assert_eq!(ExpirationDate::from("2w".to_string()), Some(ExpirationDate::TwoWeeks));
    assert_eq!(ExpirationDate::from("1m".to_string()), Some(ExpirationDate::OneMonth));
    assert_eq!(ExpirationDate::from("6m".to_string()), Some(ExpirationDate::SixMonth));
    assert_eq!(ExpirationDate::from("1y".to_string()), Some(ExpirationDate::OneYear));
}

#[test]
fn expiration_round_trip_of_every_code() {
    for date in all_dates() {
        let code = date.inspect();
        assert_eq!(ExpirationDate::from(code.to_string()), Some(date));
        assert_eq!(ExpirationDate::from(code.to_lowercase()), Some(date));
        assert_eq!(ExpirationDate::from_lowercase(&code.to_lowercase()), Some(date));
    }
}

#[test]
fn expiration_codes_are_distinct() {
    let dates = all_dates();
    assert_eq!(dates.len(), 9);
    for (i, a) in dates.iter().enumerate() {
        for (j, b) in dates.iter().enumerate() {
            assert_eq!(a.inspect() == b.inspect(), i == j);
        }
    }
}

#[test]
fn expiration_rejects_other_input() {
    assert_eq!(ExpirationDate::from("bogus".to_string()), None);
    assert_eq!(ExpirationDate::from("".to_string()), None);
    assert_eq!(ExpirationDate::from("never".to_string()), None);
    assert_eq!(ExpirationDate::from("10".to_string()), None);
    assert_eq!(ExpirationDate::from("m".to_string()), None);
    assert_eq!(ExpirationDate::from("3w".to_string()), None);
    assert_eq!(ExpirationDate::from("1m ".to_string()), None);
    assert_eq!(ExpirationDate::from(" 1m".to_string()), None);
    assert_eq!(ExpirationDate::from("10 m".to_string()), None);
}

#[test]
fn expiration_rejects_letters_that_only_lowercase_near_a_code() {
    // The Kelvin sign lowercases to an ASCII letter, but to none of a code.
    assert_eq!(ExpirationDate::from("1\u{212a}".to_string()), None);
    assert_eq!(ExpirationDate::from("1\u{ff2d}".to_string()), None);
}

#[test]
fn expiration_lowercase_reader_is_exact() {
    assert_eq!(ExpirationDate::from_lowercase("10m"), Some(ExpirationDate::TenMinutes));
    assert_eq!(ExpirationDate::from_lowercase("10M"), None);
    assert_eq!(ExpirationDate::from_lowercase("N"), None);
    assert_eq!(ExpirationDate::from_lowercase("n"), Some(ExpirationDate::Never));
}

#[test]
fn attributes_copy_and_compare() {
    let date = ExpirationDate::OneWeek;
    let same = date;
    assert_eq!(date, same);
    assert_ne!(date, ExpirationDate::TwoWeeks);
    let level = VisibilityLevel::Unlisted;
    assert_eq!(level.clone(), VisibilityLevel::Unlisted);
    assert_ne!(level, VisibilityLevel::Public);
    assert_eq!(format!("{:?}", level), "Unlisted");
    assert_eq!(format!("{:?}", date), "OneWeek");
}
