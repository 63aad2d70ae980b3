//! Type-safe names of the API's filterable and sortable fields.
//!
//! Each [`Field`] carries one canonical wire string; parsing goes the other
//! way and can be restricted to a caller-supplied allow-list.
use crate::error::{GleifError, ParseErrorKind};
use crate::text::{owned, same_text};
use vstd::prelude::*;

verus! {

/// Known field names of the API.
#[derive(Debug, Clone, Copy, PartialEq, Eq, Hash, Structural)]
pub enum Field {
    /// Business Identifier Code (SWIFT).
    Bic,
    /// Data-quality conformity flag.
    ConformityFlag,
    /// Entity category, such as `FUND` or `BRANCH`.
    EntityCategory,
    /// City of the headquarters.
    EntityHqAddressCity,
    /// Country of the headquarters.
    EntityHqAddressCountry,
    /// First line of the headquarters address.
    EntityHqAddressLine1,
    /// Postal code of the headquarters.
    EntityHqAddressPostalCode,
    /// Jurisdiction the entity is legally formed in.
    EntityJurisdiction,
    /// City of the legal address.
    EntityLegalAddressCity,
    /// Country of the legal address.
    EntityLegalAddressCountry,
    /// First line of the legal address.
    EntityLegalAddressLine1,
    /// Postal code of the legal address.
    EntityLegalAddressPostalCode,
    /// Legal form.
    EntityLegalForm,
    /// Local code of the legal form.
    EntityLegalFormCode,
    /// Identifier of the legal form.
    EntityLegalFormId,
    /// Registered legal name.
    EntityLegalName,
    /// Trade and other names.
    EntityOtherNames,
    /// Number in the business register.
    EntityBusinessRegisterNumber,
    /// Status of the entity, such as `ACTIVE`.
    EntityStatus,
    /// Search over every text field of a record.
    Fulltext,
    /// International Securities Identification Number.
    Isin,
    /// 20-character Legal Entity Identifier.
    Lei,
    /// Entities owning this one.
    OwnedBy,
    /// Entities this one owns.
    Owns,
    /// Date the LEI was first issued.
    RegistrationInitialRegistrationDate,
    /// Date the record last changed.
    RegistrationLastUpdateDate,
    /// LEI issuer managing the record.
    RegistrationManagingLou,
    /// Date the LEI is next due for renewal.
    RegistrationNextRenewalDate,
    /// Status of the LEI registration.
    RegistrationStatus,
    /// End of a relationship.
    RelationshipEndDate,
    /// Start of a relationship.
    RelationshipStartDate,
    /// Status of a relationship.
    RelationshipStatus,
    /// Kind of relationship.
    RelationshipType,
}

/// Whether an optional allow-list admits `f`: no list admits every field.
pub open spec fn permits(allowed: Option<&[Field]>, f: Field) -> bool {
    match allowed {
        None => true,
        Some(list) => list@.contains(f),
    }
}

impl Field {
    /// The canonical wire string of this field.
    pub open spec fn name(self) -> Seq<char> {
        match self {
            Self::Bic => "bic"@,
            Self::ConformityFlag => "conformity_flag"@,
            Self::EntityCategory => "entity.category"@,
            Self::EntityHqAddressCity => "entity.headquartersAddress.city"@,
            Self::EntityHqAddressCountry => "entity.headquartersAddress.country"@,
            Self::EntityHqAddressLine1 => "entity.headquartersAddress.line1"@,
            Self::EntityHqAddressPostalCode => "entity.headquartersAddress.postalCode"@,
            Self::EntityJurisdiction => "entity.jurisdiction"@,
            Self::EntityLegalAddressCity => "entity.legalAddress.city"@,
            Self::EntityLegalAddressCountry => "entity.legalAddress.country"@,
            Self::EntityLegalAddressLine1 => "entity.legalAddress.line1"@,
            Self::EntityLegalAddressPostalCode => "entity.legalAddress.postalCode"@,
            Self::EntityLegalForm => "entity.legalForm"@,
            Self::EntityLegalFormCode => "entity.legalForm.code"@,
            Self::EntityLegalFormId => "entity.legalForm.id"@,
            Self::EntityLegalName => "entity.legalName"@,
            Self::EntityOtherNames => "entity.otherNames"@,
            Self::EntityBusinessRegisterNumber => "entity.registeredAs"@,
            Self::EntityStatus => "entity.status"@,
            Self::Fulltext => "fulltext"@,
            Self::Isin => "isin"@,
            Self::Lei => "lei"@,
            Self::OwnedBy => "ownedBy"@,
            Self::Owns => "owns"@,
            Self::RegistrationInitialRegistrationDate => "registration.initialRegistrationDate"@,
            Self::RegistrationLastUpdateDate => "registration.lastUpdateDate"@,
            Self::RegistrationManagingLou => "registration.managingLou"@,
            Self::RegistrationNextRenewalDate => "registration.nextRenewalDate"@,
            Self::RegistrationStatus => "registration.status"@,
            Self::RelationshipEndDate => "relationship.endDate"@,
            Self::RelationshipStartDate => "relationship.startDate"@,
            Self::RelationshipStatus => "relationship.status"@,
            Self::RelationshipType => "relationship.type"@,
        }
    }

    /// The field whose wire string is `s`, if any.
    pub open spec fn named(s: Seq<char>) -> Option<Field> {
        if s == "bic"@ {
            Some(Self::Bic)
        } else if s == "conformity_flag"@ {
            Some(Self::ConformityFlag)
        } else if s == "entity.category"@ {
            Some(Self::EntityCategory)
        } else if s == "entity.headquartersAddress.city"@ {
            Some(Self::EntityHqAddressCity)
        } else if s == "entity.headquartersAddress.country"@ {
            Some(Self::EntityHqAddressCountry)
        } else if s == "entity.headquartersAddress.line1"@ {
            Some(Self::EntityHqAddressLine1)
        } else if s == "entity.headquartersAddress.postalCode"@ {
            Some(Self::EntityHqAddressPostalCode)
        } else if s == "entity.jurisdiction"@ {
            Some(Self::EntityJurisdiction)
        } else if s == "entity.legalAddress.city"@ {
            Some(Self::EntityLegalAddressCity)
        } else if s == "entity.legalAddress.country"@ {
            Some(Self::EntityLegalAddressCountry)
        } else if s == "entity.legalAddress.line1"@ {
            Some(Self::EntityLegalAddressLine1)
        } else if s == "entity.legalAddress.postalCode"@ {
            Some(Self::EntityLegalAddressPostalCode)
        } else if s == "entity.legalForm"@ {
            Some(Self::EntityLegalForm)
        } else if s == "entity.legalForm.code"@ {
            Some(Self::EntityLegalFormCode)
        } else if s == "entity.legalForm.id"@ {
            Some(Self::EntityLegalFormId)
        } else if s == "entity.legalName"@ {
            Some(Self::EntityLegalName)
        } else if s == "entity.otherNames"@ {
            Some(Self::EntityOtherNames)
        } else if s == "entity.registeredAs"@ {
            Some(Self::EntityBusinessRegisterNumber)
        } else if s == "entity.status"@ {
            Some(Self::EntityStatus)
        } else if s == "fulltext"@ {
            Some(Self::Fulltext)
        } else if s == "isin"@ {
            Some(Self::Isin)
        } else if s == "lei"@ {
            Some(Self::Lei)
        } else if s == "ownedBy"@ {
            Some(Self::OwnedBy)
        } else if s == "owns"@ {
            Some(Self::Owns)
        } else if s == "registration.initialRegistrationDate"@ {
            Some(Self::RegistrationInitialRegistrationDate)
        } else if s == "registration.lastUpdateDate"@ {
            Some(Self::RegistrationLastUpdateDate)
        } else if s == "registration.managingLou"@ {
            Some(Self::RegistrationManagingLou)
        } else if s == "registration.nextRenewalDate"@ {
            Some(Self::RegistrationNextRenewalDate)
        } else if s == "registration.status"@ {
            Some(Self::RegistrationStatus)
        } else if s == "relationship.endDate"@ {
            Some(Self::RelationshipEndDate)
        } else if s == "relationship.startDate"@ {
            Some(Self::RelationshipStartDate)
        } else if s == "relationship.status"@ {
            Some(Self::RelationshipStatus)
        } else if s == "relationship.type"@ {
            Some(Self::RelationshipType)
        } else {
            None
        }
    }

    /// Returns the canonical string representation for the API.
    pub fn as_str(&self) -> (r: &'static str)
        ensures
            r@ == self.name(),
    {
        match self {
            Self::Bic => "bic",
            Self::ConformityFlag => "conformity_flag",
            Self::EntityCategory => "entity.category",
            Self::EntityHqAddressCity => "entity.headquartersAddress.city",
            Self::EntityHqAddressCountry => "entity.headquartersAddress.country",
            Self::EntityHqAddressLine1 => "entity.headquartersAddress.line1",
            Self::EntityHqAddressPostalCode => "entity.headquartersAddress.postalCode",
            Self::EntityJurisdiction => "entity.jurisdiction",
            Self::EntityLegalAddressCity => "entity.legalAddress.city",
            Self::EntityLegalAddressCountry => "entity.legalAddress.country",
            Self::EntityLegalAddressLine1 => "entity.legalAddress.line1",
            Self::EntityLegalAddressPostalCode => "entity.legalAddress.postalCode",
            Self::EntityLegalForm => "entity.legalForm",
            Self::EntityLegalFormCode => "entity.legalForm.code",
            Self::EntityLegalFormId => "entity.legalForm.id",
            Self::EntityLegalName => "entity.legalName",
            Self::EntityOtherNames => "entity.otherNames",
            Self::EntityBusinessRegisterNumber => "entity.registeredAs",
            Self::EntityStatus => "entity.status",
            Self::Fulltext => "fulltext",
            Self::Isin => "isin",
            Self::Lei => "lei",
            Self::OwnedBy => "ownedBy",
            Self::Owns => "owns",
            Self::RegistrationInitialRegistrationDate => "registration.initialRegistrationDate",
            Self::RegistrationLastUpdateDate => "registration.lastUpdateDate",
            Self::RegistrationManagingLou => "registration.managingLou",
            Self::RegistrationNextRenewalDate => "registration.nextRenewalDate",
            Self::RegistrationStatus => "registration.status",
            Self::RelationshipEndDate => "relationship.endDate",
            Self::RelationshipStartDate => "relationship.startDate",
            Self::RelationshipStatus => "relationship.status",
            Self::RelationshipType => "relationship.type",
        }
    }

    /// The wire string as an owned `String`.
    pub fn to_string(&self) -> (r: String)
        ensures
            r@ == self.name(),
    {
        owned(self.as_str())
    }

    /// The wire string, borrowed.
    pub fn as_ref(&self) -> (r: &'static str)
        ensures
            r@ == self.name(),
    {
        self.as_str()
    }

    /// The field whose wire string is `s`, if any.
    fn lookup(s: &str) -> (r: Option<Field>)
        ensures
            r == Self::named(s@),
    {
        if same_text(s, "bic") {
            Some(Self::Bic)
        } else if same_text(s, "conformity_flag") {
            Some(Self::ConformityFlag)
        } else if same_text(s, "entity.category") {
            Some(Self::EntityCategory)
        } else if same_text(s, "entity.headquartersAddress.city") {
            Some(Self::EntityHqAddressCity)
        } else if same_text(s, "entity.headquartersAddress.country") {
            Some(Self::EntityHqAddressCountry)
        } else if same_text(s, "entity.headquartersAddress.line1") {
            Some(Self::EntityHqAddressLine1)
        } else if same_text(s, "entity.headquartersAddress.postalCode") {
            Some(Self::EntityHqAddressPostalCode)
        } else if same_text(s, "entity.jurisdiction") {
            Some(Self::EntityJurisdiction)
        } else if same_text(s, "entity.legalAddress.city") {
            Some(Self::EntityLegalAddressCity)
        } else if same_text(s, "entity.legalAddress.country") {
            Some(Self::EntityLegalAddressCountry)
        } else if same_text(s, "entity.legalAddress.line1") {
            Some(Self::EntityLegalAddressLine1)
        } else if same_text(s, "entity.legalAddress.postalCode") {
            Some(Self::EntityLegalAddressPostalCode)
        } else if same_text(s, "entity.legalForm") {
            Some(Self::EntityLegalForm)
        } else if same_text(s, "entity.legalForm.code") {
            Some(Self::EntityLegalFormCode)
        } else if same_text(s, "entity.legalForm.id") {
            Some(Self::EntityLegalFormId)
        } else if same_text(s, "entity.legalName") {
            Some(Self::EntityLegalName)
        } else if same_text(s, "entity.otherNames") {
            Some(Self::EntityOtherNames)
        } else if same_text(s, "entity.registeredAs") {
            Some(Self::EntityBusinessRegisterNumber)
        } else if same_text(s, "entity.status") {
            Some(Self::EntityStatus)
        } else if same_text(s, "fulltext") {
            Some(Self::Fulltext)
        } else if same_text(s, "isin") {
            Some(Self::Isin)
        } else if same_text(s, "lei") {
            Some(Self::Lei)
        } else if same_text(s, "ownedBy") {
            Some(Self::OwnedBy)
        } else if same_text(s, "owns") {
            Some(Self::Owns)
        } else if same_text(s, "registration.initialRegistrationDate") {
            Some(Self::RegistrationInitialRegistrationDate)
        } else if same_text(s, "registration.lastUpdateDate") {
            Some(Self::RegistrationLastUpdateDate)
        } else if same_text(s, "registration.managingLou") {
            Some(Self::RegistrationManagingLou)
        } else if same_text(s, "registration.nextRenewalDate") {
            Some(Self::RegistrationNextRenewalDate)
        } else if same_text(s, "registration.status") {
            Some(Self::RegistrationStatus)
        } else if same_text(s, "relationship.endDate") {
            Some(Self::RelationshipEndDate)
        } else if same_text(s, "relationship.startDate") {
            Some(Self::RelationshipStartDate)
        } else if same_text(s, "relationship.status") {
            Some(Self::RelationshipStatus)
        } else if same_text(s, "relationship.type") {
            Some(Self::RelationshipType)
        } else {
            None
        }
    }

    /// Parse a string to a field, optionally restricted to a set of allowed fields.
    ///
    /// Fails with a parse error of kind [`ParseErrorKind::Field`] when `input`
    /// names no field, and with one of kind [`ParseErrorKind::NotAllowed`] when
    /// it names a field that `allowed` leaves out.
    pub fn parse_with_allowed(input: &str, allowed: Option<&[Field]>) -> (r: Result<Field, GleifError>)
        ensures
            match Field::named(input@) {
                None => r is Err && r->Err_0.parse_kind() == Some(ParseErrorKind::Field),
                Some(f) => if permits(allowed, f) {
                    r == Ok::<Field, GleifError>(f)
                } else {
                    r is Err && r->Err_0.parse_kind() == Some(ParseErrorKind::NotAllowed)
                },
            },
    {
        let parsed = match Self::lookup(input) {
            Some(f) => f,
            None => {
                return Err(
                    GleifError::ParseError {
                        kind: ParseErrorKind::Field,
                        message: owned("Unknown field name"),
                    },
                );
            },
        };
        if let Some(list) = allowed {
            let mut i: usize = 0;
            let mut found = false;
            while i < list.len()
                invariant
                    i <= list@.len(),
                    found == (exists|j: int| 0 <= j < i && list@[j] == parsed),
                decreases list@.len() - i,
            {
                if list[i] == parsed {
                    found = true;
                }
                i = i + 1;
            }
            if !found {
                return Err(
                    GleifError::ParseError {
                        kind: ParseErrorKind::NotAllowed,
                        message: owned("Field not allowed for this operation"),
                    },
                );
            }
        }
        Ok(parsed)
    }

    /// Parse a string to a field, with no allow-list.
    pub fn from_str(s: &str) -> (r: Result<Field, GleifError>)
        ensures
            match Field::named(s@) {
                None => r is Err && r->Err_0.parse_kind() == Some(ParseErrorKind::Field),
                Some(f) => r == Ok::<Field, GleifError>(f),
            },
    {
        Field::parse_with_allowed(s, None)
    }
}

/// Every field's wire string parses back to that field: the names are pairwise distinct.
pub proof fn lemma_field_name_round_trip(f: Field)
    ensures
        Field::named(f.name()) == Some(f),
{
    reveal_strlit("bic");
    assert("bic"@.len() == 3);
    reveal_strlit("conformity_flag");
    assert("conformity_flag"@.len() == 15);
    reveal_strlit("entity.category");
    assert("entity.category"@.len() == 15);
    reveal_strlit("entity.headquartersAddress.city");
    assert("entity.headquartersAddress.city"@.len() == 31);
    reveal_strlit("entity.headquartersAddress.country");
    assert("entity.headquartersAddress.country"@.len() == 34);
    reveal_strlit("entity.headquartersAddress.line1");
    assert("entity.headquartersAddress.line1"@.len() == 32);
    reveal_strlit("entity.headquartersAddress.postalCode");
    assert("entity.headquartersAddress.postalCode"@.len() == 37);
    reveal_strlit("entity.jurisdiction");
    assert("entity.jurisdiction"@.len() == 19);
    reveal_strlit("entity.legalAddress.city");
    assert("entity.legalAddress.city"@.len() == 24);
    reveal_strlit("entity.legalAddress.country");
    assert("entity.legalAddress.country"@.len() == 27);
    reveal_strlit("entity.legalAddress.line1");
    assert("entity.legalAddress.line1"@.len() == 25);
    reveal_strlit("entity.legalAddress.postalCode");
    assert("entity.legalAddress.postalCode"@.len() == 30);
    reveal_strlit("entity.legalForm");
    assert("entity.legalForm"@.len() == 16);
    reveal_strlit("entity.legalForm.code");
    assert("entity.legalForm.code"@.len() == 21);
    reveal_strlit("entity.legalForm.id");
    assert("entity.legalForm.id"@.len() == 19);
    reveal_strlit("entity.legalName");
    assert("entity.legalName"@.len() == 16);
    reveal_strlit("entity.otherNames");
    assert("entity.otherNames"@.len() == 17);
    reveal_strlit("entity.registeredAs");
    assert("entity.registeredAs"@.len() == 19);
    reveal_strlit("entity.status");
    assert("entity.status"@.len() == 13);
    reveal_strlit("fulltext");
    assert("fulltext"@.len() == 8);
    reveal_strlit("isin");
    assert("isin"@.len() == 4);
    reveal_strlit("lei");
    assert("lei"@.len() == 3);
    reveal_strlit("ownedBy");
    assert("ownedBy"@.len() == 7);
    reveal_strlit("owns");
    assert("owns"@.len() == 4);
    reveal_strlit("registration.initialRegistrationDate");
    assert("registration.initialRegistrationDate"@.len() == 36);
    reveal_strlit("registration.lastUpdateDate");
    assert("registration.lastUpdateDate"@.len() == 27);
    reveal_strlit("registration.managingLou");
    assert("registration.managingLou"@.len() == 24);
    reveal_strlit("registration.nextRenewalDate");
    assert("registration.nextRenewalDate"@.len() == 28);
    reveal_strlit("registration.status");
    assert("registration.status"@.len() == 19);
    reveal_strlit("relationship.endDate");
    assert("relationship.endDate"@.len() == 20);
    reveal_strlit("relationship.startDate");
    assert("relationship.startDate"@.len() == 22);
    reveal_strlit("relationship.status");
    assert("relationship.status"@.len() == 19);
    reveal_strlit("relationship.type");
    assert("relationship.type"@.len() == 17);
    match f {
        Field::Bic => {},
        Field::ConformityFlag => {},
        Field::EntityCategory => {
            assert("entity.category"@[0] != "conformity_flag"@[0]);
        },
        Field::EntityHqAddressCity => {},
        Field::EntityHqAddressCountry => {},
        Field::EntityHqAddressLine1 => {},
        Field::EntityHqAddressPostalCode => {},
        Field::EntityJurisdiction => {},
        Field::EntityLegalAddressCity => {},
        Field::EntityLegalAddressCountry => {},
        Field::EntityLegalAddressLine1 => {},
        Field::EntityLegalAddressPostalCode => {},
        Field::EntityLegalForm => {},
        Field::EntityLegalFormCode => {},
        Field::EntityLegalFormId => {
            assert("entity.legalForm.id"@[7] != "entity.jurisdiction"@[7]);
        },
        Field::EntityLegalName => {
            assert("entity.legalName"@[12] != "entity.legalForm"@[12]);
        },
        Field::EntityOtherNames => {},
        Field::EntityBusinessRegisterNumber => {
            assert("entity.registeredAs"@[7] != "entity.jurisdiction"@[7]);
            assert("entity.registeredAs"@[7] != "entity.legalForm.id"@[7]);
        },
        Field::EntityStatus => {},
        Field::Fulltext => {},
        Field::Isin => {},
        Field::Lei => {
            assert("lei"@[0] != "bic"@[0]);
        },
        Field::OwnedBy => {},
        Field::Owns => {
            assert("owns"@[0] != "isin"@[0]);
        },
        Field::RegistrationInitialRegistrationDate => {},
        Field::RegistrationLastUpdateDate => {
            assert("registration.lastUpdateDate"@[0] != "entity.legalAddress.country"@[0]);
        },
        Field::RegistrationManagingLou => {
            assert("registration.managingLou"@[0] != "entity.legalAddress.city"@[0]);
        },
        Field::RegistrationNextRenewalDate => {},
        Field::RegistrationStatus => {
            assert("registration.status"@[0] != "entity.jurisdiction"@[0]);
            assert("registration.status"@[0] != "entity.legalForm.id"@[0]);
            assert("registration.status"@[0] != "entity.registeredAs"@[0]);
        },
        Field::RelationshipEndDate => {},
        Field::RelationshipStartDate => {},
        Field::RelationshipStatus => {
            assert("relationship.status"@[0] != "entity.jurisdiction"@[0]);
            assert("relationship.status"@[0] != "entity.legalForm.id"@[0]);
            assert("relationship.status"@[0] != "entity.registeredAs"@[0]);
            assert("relationship.status"@[2] != "registration.status"@[2]);
        },
        Field::RelationshipType => {
            assert("relationship.type"@[0] != "entity.otherNames"@[0]);
        },
    }
}

impl std::str::FromStr for Field {
    type Err = GleifError;

    fn from_str(s: &str) -> Result<Field, GleifError> {
        Field::parse_with_allowed(s, None)
    }
}

} // verus!
