use gleif_rs::error::{GleifError, ParseErrorKind};
use gleif_rs::field::Field;

fn parse_kind(e: &GleifError) -> Option<ParseErrorKind> {
    match e {
        GleifError::ParseError { kind, .. } => Some(*kind),
        _ => None,
    }
}

#[test]
fn test_field_as_str() {
    assert_eq!(Field::Lei.as_str(), "lei");
    assert_eq!(Field::EntityLegalName.as_str(), "entity.legalName");
    assert_eq!(Field::RegistrationStatus.as_str(), "registration.status");
    assert_eq!(Field::Owns.as_str(), "owns");
}

#[test]
fn test_field_display() {
    assert_eq!(Field::Lei.to_string(), "lei");
    assert_eq!(Field::EntityLegalName.to_string(), "entity.legalName");
    assert_eq!(Field::RegistrationStatus.to_string(), "registration.status");
}

#[test]
fn test_field_from_str() {
    assert_eq!(Field::from_str("lei").unwrap(), Field::Lei);
    assert_eq!(
        Field::from_str("entity.legalName").unwrap(),
        Field::EntityLegalName
    );
    assert_eq!(
        Field::from_str("registration.status").unwrap(),
        Field::RegistrationStatus
    );
    assert!(Field::from_str("not_a_field").is_err());
}

#[test]
fn field_allow_list_admits_listed_field() {
    let allowed = [Field::Lei, Field::Bic];
    assert_eq!(
        Field::parse_with_allowed("lei", Some(&allowed)).unwrap(),
        Field::Lei
    );
}

#[test]
fn field_allow_list_rejects_unlisted_known_field() {
    let allowed = [Field::Lei, Field::Bic];
    let err = Field::parse_with_allowed("entity.category", Some(&allowed)).unwrap_err();
    assert_eq!(parse_kind(&err), Some(ParseErrorKind::NotAllowed));
    let err = Field::parse_with_allowed("entity.status", Some(&allowed)).unwrap_err();
    assert_eq!(parse_kind(&err), Some(ParseErrorKind::NotAllowed));
    assert_eq!(Field::from_str("entity.status").unwrap(), Field::EntityStatus);
}

#[test]
fn field_unknown_name_is_a_field_error() {
    let err = Field::parse_with_allowed("nonExistentField", None).unwrap_err();
    assert_eq!(parse_kind(&err), Some(ParseErrorKind::Field));
    let err = Field::parse_with_allowed("", Some(&[])).unwrap_err();
    assert_eq!(parse_kind(&err), Some(ParseErrorKind::Field));
}

#[test]
fn field_empty_allow_list_rejects_everything_known() {
    let err = Field::parse_with_allowed("fulltext", Some(&[])).unwrap_err();
    assert_eq!(parse_kind(&err), Some(ParseErrorKind::NotAllowed));
}

#[test]
fn field_names_round_trip() {
    let all = [
        Field::Lei, Field::Bic, Field::Isin, Field::EntityLegalName, Field::EntityOtherNames,
        Field::EntityLegalForm, Field::EntityLegalFormId, Field::EntityLegalFormCode,
        Field::EntityCategory, Field::EntityLegalAddressCountry, Field::EntityLegalAddressLine1,
        Field::EntityLegalAddressCity, Field::EntityLegalAddressPostalCode,
        Field::EntityHqAddressCountry, Field::EntityHqAddressLine1, Field::EntityHqAddressCity,
        Field::EntityHqAddressPostalCode, Field::EntityBusinessRegisterNumber,
        Field::EntityJurisdiction, Field::EntityStatus, Field::RegistrationStatus,
        Field::RegistrationInitialRegistrationDate, Field::RegistrationLastUpdateDate,
        Field::RegistrationNextRenewalDate, Field::RegistrationManagingLou, Field::ConformityFlag,
        Field::Owns, Field::OwnedBy, Field::RelationshipStartDate, Field::RelationshipEndDate,
        Field::RelationshipStatus, Field::RelationshipType, Field::Fulltext,
    ];
    for f in all {
        assert_eq!(Field::from_str(f.as_str()).unwrap(), f);
        assert_eq!(f.as_ref(), f.as_str());
    }
    assert_eq!(Field::EntityHqAddressPostalCode.as_str(), "entity.headquartersAddress.postalCode");
    assert_eq!(Field::ConformityFlag.as_str(), "conformity_flag");
}

#[test]
fn field_and_values_parse_through_from_str_trait() {
    let f: Field = "entity.legalForm.id".parse().unwrap();
    assert_eq!(f, Field::EntityLegalFormId);
    assert!("LEI".parse::<Field>().is_err());
    let c: gleif_rs::value::EntityCategory = "FUND".parse().unwrap();
    assert_eq!(c, gleif_rs::value::EntityCategory::Fund);
}
