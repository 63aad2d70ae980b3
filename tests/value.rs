use gleif_rs::error::{GleifError, ParseErrorKind};
use gleif_rs::value::{ConformityFlag, EntityCategory, RegistrationStatus};

#[test]
fn entity_category_display_and_asref() {
    let cat = EntityCategory::Branch;
    assert_eq!(cat.to_string(), "BRANCH");
    assert_eq!(cat.as_ref(), "BRANCH");
    assert_eq!(cat.as_str(), "BRANCH");
    assert_eq!(EntityCategory::from_str("BRANCH").unwrap(), cat);
}

#[test]
fn registration_status_display_and_asref() {
    let status = RegistrationStatus::Lapsed;
    assert_eq!(status.to_string(), "LAPSED");
    assert_eq!(status.as_ref(), "LAPSED");
    assert_eq!(status.as_str(), "LAPSED");
    assert_eq!(RegistrationStatus::from_str("LAPSED").unwrap(), status);
}

#[test]
fn conformity_flag_display_and_asref() {
    let flag = ConformityFlag::NonConforming;
    assert_eq!(flag.to_string(), "NON_CONFORMING");
    assert_eq!(flag.as_ref(), "NON_CONFORMING");
    assert_eq!(flag.as_str(), "NON_CONFORMING");
    assert_eq!(ConformityFlag::from_str("NON_CONFORMING").unwrap(), flag);
}

#[test]
fn value_unknown_text_is_a_value_error() {
    for e in [
        EntityCategory::from_str("branch").unwrap_err(),
        RegistrationStatus::from_str("").unwrap_err(),
        ConformityFlag::from_str("CONFORMING ").unwrap_err(),
    ] {
        match e {
            GleifError::ParseError { kind, .. } => assert_eq!(kind, ParseErrorKind::Value),
            other => panic!("unexpected error {other:?}"),
        }
    }
}

#[test]
fn value_strings_round_trip() {
    assert_eq!(EntityCategory::SoleProprietor.as_str(), "SOLE_PROPRIETOR");
    assert_eq!(
        EntityCategory::from_str("INTERNATIONAL_ORGANIZATION").unwrap(),
        EntityCategory::InternationalOrganization
    );
    assert_eq!(RegistrationStatus::PendingValidation.as_str(), "PENDING_VALIDATION");
    assert_eq!(
        RegistrationStatus::from_str("PENDING_ARCHIVAL").unwrap(),
        RegistrationStatus::PendingArchival
    );
    assert_eq!(ConformityFlag::NotApplicable.as_str(), "NOT_APPLICABLE");
}
