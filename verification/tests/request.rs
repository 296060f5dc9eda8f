use pastebin_client::request::{
    FIELD_CODE, FIELD_DEV_KEY, FIELD_EXPIRE_DATE, FIELD_FORMAT, FIELD_NAME, FIELD_OPTION,
    FIELD_PRIVATE, MAX_PASTE_BYTES, OPTION_PASTE,
};
use pastebin_client::{ExpirationDate, PasteRequest, PastebinApi, PastebinError, VisibilityLevel};

fn minimal(text: &str) -> Result<PasteRequest, PastebinError> {
    PasteRequest::build("X".to_string(), text.to_string(), None, None, None, None)
}

#[test]
fn field_names_on_the_wire() {
    assert_eq!(FIELD_OPTION, "api_option");
    assert_eq!(FIELD_DEV_KEY, "api_dev_key");
    assert_eq!(FIELD_CODE, "api_paste_code");
    assert_eq!(FIELD_PRIVATE, "api_paste_private");
    assert_eq!(FIELD_NAME, "api_paste_name");
    assert_eq!(FIELD_EXPIRE_DATE, "api_paste_expire_date");
    assert_eq!(FIELD_FORMAT, "api_paste_format");
    assert_eq!(OPTION_PASTE, "paste");
    assert_eq!(MAX_PASTE_BYTES, 512000);
}

#[test]
fn minimal_payload_has_exactly_three_fields() {
    let request = minimal("hello").unwrap();
    assert_eq!(request.len(), 3);
    assert_eq!(request.get("api_option"), Some("paste"));
    assert_eq!(request.get("api_dev_key"), Some("X"));
    assert_eq!(request.get("api_paste_code"), Some("hello"));
    assert_eq!(request.get("api_paste_private"), None);
    assert_eq!(request.get("api_paste_name"), None);
    assert_eq!(request.get("api_paste_expire_date"), None);
    assert_eq!(request.get("api_paste_format"), None);
    assert_eq!(
        request.into_pairs(),
        vec![
            ("api_option".to_string(), "paste".to_string()),
            ("api_dev_key".to_string(), "X".to_string()),
            ("api_paste_code".to_string(), "hello".to_string()),
        ]
    );
}

#[test]
fn full_payload_has_every_field_with_its_encoding() {
    let request = PasteRequest::build(
        "key".to_string(),
        "fn main() {}".to_string(),
        Some("My Paste".to_string()),
        Some(VisibilityLevel::Unlisted),
        Some("rust".to_string()),
        Some(ExpirationDate::TenMinutes),
    )
    .unwrap();
    assert_eq!(request.len(), 7);
    assert_eq!(request.get(FIELD_OPTION), Some("paste"));
    assert_eq!(request.get(FIELD_DEV_KEY), Some("key"));
    assert_eq!(request.get(FIELD_CODE), Some("fn main() {}"));
    assert_eq!(request.get(FIELD_PRIVATE), Some("1"));
    assert_eq!(request.get(FIELD_NAME), Some("My Paste"));
    assert_eq!(request.get(FIELD_EXPIRE_DATE), Some("10M"));
    assert_eq!(request.get(FIELD_FORMAT), Some("rust"));
}

#[test]
fn each_optional_field_alone() {
    let r = PasteRequest::build(
        "k".to_string(),
        "c".to_string(),
        None,
        Some(VisibilityLevel::Public),
        None,
        None,
    )
    .unwrap();
    assert_eq!(r.len(), 4);
    assert_eq!(r.get(FIELD_PRIVATE), Some("0"));
    assert_eq!(r.get(FIELD_NAME), None);

    let r = PasteRequest::build(
        "k".to_string(),
        "c".to_string(),
        Some("n".to_string()),
        None,
        None,
        None,
    )
    .unwrap();
    assert_eq!(r.len(), 4);
    assert_eq!(r.get(FIELD_NAME), Some("n"));
    assert_eq!(r.get(FIELD_PRIVATE), None);

    let r = PasteRequest::build(
        "k".to_string(),
        "c".to_string(),
        None,
        None,
        Some("python".to_string()),
        None,
    )
    .unwrap();
    assert_eq!(r.len(), 4);
    assert_eq!(r.get(FIELD_FORMAT), Some("python"));
    assert_eq!(r.get(FIELD_EXPIRE_DATE), None);

    let r = PasteRequest::build(
        "k".to_string(),
        "c".to_string(),
        None,
        None,
        None,
        Some(ExpirationDate::OneYear),
    )
    .unwrap();
    assert_eq!(r.len(), 4);
    assert_eq!(r.get(FIELD_EXPIRE_DATE), Some("1Y"));
    assert_eq!(r.get(FIELD_FORMAT), None);
}

#[test]
fn every_lifetime_is_sent_as_its_short_code() {
    let cases = [
        (ExpirationDate::Never, "N"),
        (ExpirationDate::TenMinutes, "10M"),
        (ExpirationDate::OneHour, "1H"),
        (ExpirationDate::OneDay, "1D"),
        (ExpirationDate::OneWeek, "1W"),
        (ExpirationDate::TwoWeeks, "2W"),
        (ExpirationDate::OneMonth, "1M"),
        (ExpirationDate::SixMonth, "6M"),
        (ExpirationDate::OneYear, "1Y"),
    ];
    for (date, code) in cases {
        let r = PasteRequest::build(
            "k".to_string(),
            "c".to_string(),
            None,
            None,
            None,
            Some(date),
        )
        .unwrap();
        assert_eq!(r.get(FIELD_EXPIRE_DATE), Some(code));
    }
}

#[test]
fn values_are_passed_through_verbatim() {
    let name = "  Spaced Name \u{e9}\n";
    let text = " leading and trailing \t\n";
    let r = PasteRequest::build(
        " key with spaces ".to_string(),
        text.to_string(),
        Some(name.to_string()),
        None,
        Some("".to_string()),
        None,
    )
    .unwrap();
    assert_eq!(r.get(FIELD_DEV_KEY), Some(" key with spaces "));
    assert_eq!(r.get(FIELD_CODE), Some(text));
    assert_eq!(r.get(FIELD_NAME), Some(name));
    // A supplied but empty attribute is still present.
    assert_eq!(r.get(FIELD_FORMAT), Some(""));
    assert_eq!(r.len(), 5);
}

#[test]
fn empty_credential_is_not_checked() {
    let r = PasteRequest::build("".to_string(), "c".to_string(), None, None, None, None).unwrap();
    assert_eq!(r.get(FIELD_DEV_KEY), Some(""));
}

#[test]
fn empty_content_is_refused() {
    assert_eq!(minimal("").err(), Some(PastebinError::EmptyPasteContent));
}

#[test]
fn empty_content_is_refused_whatever_the_attributes() {
    let r = PasteRequest::build(
        "key".to_string(),
        String::new(),
        Some("name".to_string()),
        Some(VisibilityLevel::Public),
        Some("rust".to_string()),
        Some(ExpirationDate::Never),
    );
    assert_eq!(r.err(), Some(PastebinError::EmptyPasteContent));
}

#[test]
fn content_at_the_limit_is_accepted() {
    let text = "a".repeat(512000);
    let r = minimal(&text).unwrap();
    assert_eq!(r.get(FIELD_CODE).map(|v| v.len()), Some(512000));
}

#[test]
fn content_over_the_limit_is_refused() {
    let text = "a".repeat(512001);
    assert_eq!(minimal(&text).err(), Some(PastebinError::PasteTooBig));
}

#[test]
fn oversized_content_is_refused_whatever_the_attributes() {
    let r = PasteRequest::build(
        "key".to_string(),
        "b".repeat(600000),
        Some("name".to_string()),
        Some(VisibilityLevel::Unlisted),
        Some("rust".to_string()),
        Some(ExpirationDate::OneDay),
    );
    assert_eq!(r.err(), Some(PastebinError::PasteTooBig));
}

#[test]
fn the_limit_counts_bytes_not_characters() {
    // Two bytes each: 256000 characters are exactly at the limit.
    let at_limit = "\u{e9}".repeat(256000);
    assert_eq!(at_limit.len(), 512000);
    assert!(minimal(&at_limit).is_ok());
    let over = "\u{e9}".repeat(256001);
    assert_eq!(minimal(&over).err(), Some(PastebinError::PasteTooBig));
}

#[test]
fn one_byte_of_content_is_enough() {
    let r = minimal("x").unwrap();
    assert_eq!(r.get(FIELD_CODE), Some("x"));
}

#[test]
fn lookup_of_unknown_names() {
    let r = minimal("hello").unwrap();
    assert_eq!(r.get(""), None);
    assert_eq!(r.get("API_OPTION"), None);
    assert_eq!(r.get("api_option "), None);
    assert_eq!(r.get("paste"), None);
}

#[test]
fn pairs_hold_each_field_once() {
    let request = PasteRequest::build(
        "key".to_string(),
        "text".to_string(),
        Some("name".to_string()),
        Some(VisibilityLevel::Public),
        Some("c".to_string()),
        Some(ExpirationDate::SixMonth),
    )
    .unwrap();
    let pairs = request.into_pairs();
    assert_eq!(pairs.len(), 7);
    for (i, a) in pairs.iter().enumerate() {
        for (j, b) in pairs.iter().enumerate() {
            assert_eq!(a.0 == b.0, i == j);
        }
    }
    assert!(pairs.contains(&("api_paste_private".to_string(), "0".to_string())));
    assert!(pairs.contains(&("api_paste_expire_date".to_string(), "6M".to_string())));
    assert!(pairs.contains(&("api_paste_format".to_string(), "c".to_string())));
    assert!(pairs.contains(&("api_paste_name".to_string(), "name".to_string())));
}

#[test]
fn building_is_deterministic() {
    let build = || {
        PasteRequest::build(
            "key".to_string(),
            "text".to_string(),
            Some("name".to_string()),
            None,
            Some("c".to_string()),
            Some(ExpirationDate::OneHour),
        )
        .unwrap()
        .into_pairs()
    };
    assert_eq!(build(), build());
}

#[test]
fn api_request_carries_its_credential() {
    let api = PastebinApi::new("SECRET".to_string());
    let r = api
        .request(None, Some(VisibilityLevel::Unlisted), "body".to_string(), None, None)
        .unwrap();
    assert_eq!(r.len(), 4);
    assert_eq!(r.get(FIELD_DEV_KEY), Some("SECRET"));
    assert_eq!(r.get(FIELD_CODE), Some("body"));
    assert_eq!(r.get(FIELD_PRIVATE), Some("1"));
    assert_eq!(
        api.request(None, None, String::new(), None, None).err(),
        Some(PastebinError::EmptyPasteContent)
    );
}
