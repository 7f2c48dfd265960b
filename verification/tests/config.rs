use k_iter::config::resolve_start_policy;
use k_iter::config::DataFormat;
use k_iter::config::IteratorType;
use k_iter::config::StartPolicy;
use k_iter::error::ErrorKind;

#[test]
fn policies_without_parameters_always_resolve() {
    assert!(matches!(
        resolve_start_policy(IteratorType::Latest, None, None),
        Ok(StartPolicy::Latest)
    ));
    assert!(matches!(
        resolve_start_policy(IteratorType::TrimHorizon, None, None),
        Ok(StartPolicy::TrimHorizon)
    ));
    // A parameter that the policy does not need is ignored, not an error.
    assert!(matches!(
        resolve_start_policy(IteratorType::Latest, Some("7".to_string()), Some(3)),
        Ok(StartPolicy::Latest)
    ));
}

#[test]
fn sequence_number_policies_require_a_non_empty_sequence_number() {
    let ok = resolve_start_policy(
        IteratorType::AtSequenceNumber,
        Some("12345".to_string()),
        None,
    )
    .unwrap();
    match ok {
        StartPolicy::AtSequenceNumber(s) => assert_eq!("12345", s),
        _ => panic!("wrong policy"),
    }

    let ok = resolve_start_policy(
        IteratorType::AfterSequenceNumber,
        Some("12345".to_string()),
        None,
    )
    .unwrap();
    match ok {
        StartPolicy::AfterSequenceNumber(s) => assert_eq!("12345", s),
        _ => panic!("wrong policy"),
    }

    let missing = resolve_start_policy(IteratorType::AtSequenceNumber, None, None).unwrap_err();
    assert_eq!(ErrorKind::Config, *missing.kind());

    let missing = resolve_start_policy(IteratorType::AfterSequenceNumber, None, Some(5)).unwrap_err();
    assert_eq!(ErrorKind::Config, *missing.kind());

    let empty =
        resolve_start_policy(IteratorType::AtSequenceNumber, Some("".to_string()), None).unwrap_err();
    assert_eq!(ErrorKind::Config, *empty.kind());
}

#[test]
fn timestamp_policy_requires_a_timestamp() {
    let ok = resolve_start_policy(IteratorType::AtTimestamp, None, Some(1700000000000)).unwrap();
    match ok {
        StartPolicy::AtTimestamp(ms) => assert_eq!(1700000000000, ms),
        _ => panic!("wrong policy"),
    }

    let missing = resolve_start_policy(IteratorType::AtTimestamp, None, None).unwrap_err();
    assert_eq!(ErrorKind::Config, *missing.kind());

    // A sequence number is no substitute for a timestamp.
    let missing =
        resolve_start_policy(IteratorType::AtTimestamp, Some("1".to_string()), None).unwrap_err();
    assert_eq!(ErrorKind::Config, *missing.kind());
}

#[test]
fn iterator_types_have_their_service_names() {
    assert_eq!("LATEST", IteratorType::Latest.api_name());
    assert_eq!("TRIM_HORIZON", IteratorType::TrimHorizon.api_name());
    assert_eq!(
        "AT_SEQUENCE_NUMBER",
        IteratorType::AtSequenceNumber.api_name()
    );
    assert_eq!(
        "AFTER_SEQUENCE_NUMBER",
        IteratorType::AfterSequenceNumber.api_name()
    );
    assert_eq!("AT_TIMESTAMP", IteratorType::AtTimestamp.api_name());
}

#[test]
fn data_formats_are_distinct_choices() {
    assert_ne!(DataFormat::RawBytes, DataFormat::RawString);
    assert_ne!(DataFormat::RawString, DataFormat::Utf8String);
    assert_eq!(DataFormat::Utf8String, DataFormat::Utf8String);
}
