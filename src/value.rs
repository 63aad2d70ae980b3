//! Canonical wire strings of the enumerated field values that filters accept
//! (entity categories, registration statuses, conformity flags), and parsing
//! back from them.
use crate::error::{GleifError, ParseErrorKind};
use crate::text::{owned, same_text};
use vstd::prelude::*;

pub use crate::model::enums::{ConformityFlag, EntityCategory, RegistrationStatus};

verus! {

impl EntityCategory {
    /// The canonical wire string of this entity category.
    pub open spec fn name(self) -> Seq<char> {
        match self {
            Self::Branch => "BRANCH"@,
            Self::Fund => "FUND"@,
            Self::General => "GENERAL"@,
            Self::InternationalOrganization => "INTERNATIONAL_ORGANIZATION"@,
            Self::ResidentGovernmentEntity => "RESIDENT_GOVERNMENT_ENTITY"@,
            Self::SoleProprietor => "SOLE_PROPRIETOR"@,
        }
    }

    /// The entity category whose wire string is `s`, if any.
    pub open spec fn named(s: Seq<char>) -> Option<EntityCategory> {
        if s == "BRANCH"@ {
            Some(Self::Branch)
        } else if s == "FUND"@ {
            Some(Self::Fund)
        } else if s == "GENERAL"@ {
            Some(Self::General)
        } else if s == "INTERNATIONAL_ORGANIZATION"@ {
            Some(Self::InternationalOrganization)
        } else if s == "RESIDENT_GOVERNMENT_ENTITY"@ {
            Some(Self::ResidentGovernmentEntity)
        } else if s == "SOLE_PROPRIETOR"@ {
            Some(Self::SoleProprietor)
        } else {
            None
        }
    }

    /// Returns the canonical string representation for the API.
    pub fn as_str(&self) -> (r: &'static str)
        ensures
            r@ == self.name(),
    {
        match self {
            Self::Branch => "BRANCH",
            Self::Fund => "FUND",
            Self::General => "GENERAL",
            Self::InternationalOrganization => "INTERNATIONAL_ORGANIZATION",
            Self::ResidentGovernmentEntity => "RESIDENT_GOVERNMENT_ENTITY",
            Self::SoleProprietor => "SOLE_PROPRIETOR",
        }
    }

    /// The wire string as an owned `String`.
    pub fn to_string(&self) -> (r: String)
        ensures
            r@ == self.name(),
    {
        owned(self.as_str())
    }

    /// The wire string, borrowed.
    pub fn as_ref(&self) -> (r: &'static str)
        ensures
            r@ == self.name(),
    {
        self.as_str()
    }

    /// The entity category whose wire string is `s`, if any.
    fn lookup(s: &str) -> (r: Option<EntityCategory>)
        ensures
            r == Self::named(s@),
    {
        if same_text(s, "BRANCH") {
            Some(Self::Branch)
        } else if same_text(s, "FUND") {
            Some(Self::Fund)
        } else if same_text(s, "GENERAL") {
            Some(Self::General)
        } else if same_text(s, "INTERNATIONAL_ORGANIZATION") {
            Some(Self::InternationalOrganization)
        } else if same_text(s, "RESIDENT_GOVERNMENT_ENTITY") {
            Some(Self::ResidentGovernmentEntity)
        } else if same_text(s, "SOLE_PROPRIETOR") {
            Some(Self::SoleProprietor)
        } else {
            None
        }
    }

    /// Parse the wire string of a entity category; any other text is a parse error of
    /// kind [`ParseErrorKind::Value`].
    pub fn from_str(s: &str) -> (r: Result<EntityCategory, GleifError>)
        ensures
            match EntityCategory::named(s@) {
                None => r is Err && r->Err_0.parse_kind() == Some(ParseErrorKind::Value),
                Some(v) => r == Ok::<EntityCategory, GleifError>(v),
            },
    {
        match Self::lookup(s) {
            Some(v) => Ok(v),
            None => Err(
                GleifError::ParseError {
                    kind: ParseErrorKind::Value,
                    message: owned("Unknown EntityCategory variant"),
                },
            ),
        }
    }
}

/// Every entity category's wire string parses back to it: the strings are pairwise distinct.
pub proof fn lemma_entity_category_round_trip(f: EntityCategory)
    ensures
        EntityCategory::named(f.name()) == Some(f),
{
    reveal_strlit("BRANCH");
    assert("BRANCH"@.len() == 6);
    reveal_strlit("FUND");
    assert("FUND"@.len() == 4);
    reveal_strlit("GENERAL");
    assert("GENERAL"@.len() == 7);
    reveal_strlit("INTERNATIONAL_ORGANIZATION");
    assert("INTERNATIONAL_ORGANIZATION"@.len() == 26);
    reveal_strlit("RESIDENT_GOVERNMENT_ENTITY");
    assert("RESIDENT_GOVERNMENT_ENTITY"@.len() == 26);
    reveal_strlit("SOLE_PROPRIETOR");
    assert("SOLE_PROPRIETOR"@.len() == 15);
    match f {
        EntityCategory::Branch => {},
        EntityCategory::Fund => {},
        EntityCategory::General => {},
        EntityCategory::InternationalOrganization => {},
        EntityCategory::ResidentGovernmentEntity => {
            assert("RESIDENT_GOVERNMENT_ENTITY"@[0] != "INTERNATIONAL_ORGANIZATION"@[0]);
        },
        EntityCategory::SoleProprietor => {},
    }
}

impl RegistrationStatus {
    /// The canonical wire string of this registration status.
    pub open spec fn name(self) -> Seq<char> {
        match self {
            Self::Annulled => "ANNULLED"@,
            Self::Cancelled => "CANCELLED"@,
            Self::Duplicate => "DUPLICATE"@,
            Self::Issued => "ISSUED"@,
            Self::Lapsed => "LAPSED"@,
            Self::Merged => "MERGED"@,
            Self::PendingArchival => "PENDING_ARCHIVAL"@,
            Self::PendingTransfer => "PENDING_TRANSFER"@,
            Self::PendingValidation => "PENDING_VALIDATION"@,
            Self::Published => "PUBLISHED"@,
            Self::Retired => "RETIRED"@,
            Self::Transferred => "TRANSFERRED"@,
        }
    }

    /// The registration status whose wire string is `s`, if any.
    pub open spec fn named(s: Seq<char>) -> Option<RegistrationStatus> {
        if s == "ANNULLED"@ {
            Some(Self::Annulled)
        } else if s == "CANCELLED"@ {
            Some(Self::Cancelled)
        } else if s == "DUPLICATE"@ {
            Some(Self::Duplicate)
        } else if s == "ISSUED"@ {
            Some(Self::Issued)
        } else if s == "LAPSED"@ {
            Some(Self::Lapsed)
        } else if s == "MERGED"@ {
            Some(Self::Merged)
        } else if s == "PENDING_ARCHIVAL"@ {
            Some(Self::PendingArchival)
        } else if s == "PENDING_TRANSFER"@ {
            Some(Self::PendingTransfer)
        } else if s == "PENDING_VALIDATION"@ {
            Some(Self::PendingValidation)
        } else if s == "PUBLISHED"@ {
            Some(Self::Published)
        } else if s == "RETIRED"@ {
            Some(Self::Retired)
        } else if s == "TRANSFERRED"@ {
            Some(Self::Transferred)
        } else {
            None
        }
    }

    /// Returns the canonical string representation for the API.
    pub fn as_str(&self) -> (r: &'static str)
        ensures
            r@ == self.name(),
    {
        match self {
            Self::Annulled => "ANNULLED",
            Self::Cancelled => "CANCELLED",
            Self::Duplicate => "DUPLICATE",
            Self::Issued => "ISSUED",
            Self::Lapsed => "LAPSED",
            Self::Merged => "MERGED",
            Self::PendingArchival => "PENDING_ARCHIVAL",
            Self::PendingTransfer => "PENDING_TRANSFER",
            Self::PendingValidation => "PENDING_VALIDATION",
            Self::Published => "PUBLISHED",
            Self::Retired => "RETIRED",
            Self::Transferred => "TRANSFERRED",
        }
    }

    /// The wire string as an owned `String`.
    pub fn to_string(&self) -> (r: String)
        ensures
            r@ == self.name(),
    {
        owned(self.as_str())
    }

    /// The wire string, borrowed.
    pub fn as_ref(&self) -> (r: &'static str)
        ensures
            r@ == self.name(),
    {
        self.as_str()
    }

    /// The registration status whose wire string is `s`, if any.
    fn lookup(s: &str) -> (r: Option<RegistrationStatus>)
        ensures
            r == Self::named(s@),
    {
        if same_text(s, "ANNULLED") {
            Some(Self::Annulled)
        } else if same_text(s, "CANCELLED") {
            Some(Self::Cancelled)
        } else if same_text(s, "DUPLICATE") {
            Some(Self::Duplicate)
        } else if same_text(s, "ISSUED") {
            Some(Self::Issued)
        } else if same_text(s, "LAPSED") {
            Some(Self::Lapsed)
        } else if same_text(s, "MERGED") {
            Some(Self::Merged)
        } else if same_text(s, "PENDING_ARCHIVAL") {
            Some(Self::PendingArchival)
        } else if same_text(s, "PENDING_TRANSFER") {
            Some(Self::PendingTransfer)
        } else if same_text(s, "PENDING_VALIDATION") {
            Some(Self::PendingValidation)
        } else if same_text(s, "PUBLISHED") {
            Some(Self::Published)
        } else if same_text(s, "RETIRED") {
            Some(Self::Retired)
        } else if same_text(s, "TRANSFERRED") {
            Some(Self::Transferred)
        } else {
            None
        }
    }

    /// Parse the wire string of a registration status; any other text is a parse error of
    /// kind [`ParseErrorKind::Value`].
    pub fn from_str(s: &str) -> (r: Result<RegistrationStatus, GleifError>)
        ensures
            match RegistrationStatus::named(s@) {
                None => r is Err && r->Err_0.parse_kind() == Some(ParseErrorKind::Value),
                Some(v) => r == Ok::<RegistrationStatus, GleifError>(v),
            },
    {
        match Self::lookup(s) {
            Some(v) => Ok(v),
            None => Err(
                GleifError::ParseError {
                    kind: ParseErrorKind::Value,
                    message: owned("Unknown RegistrationStatus variant"),
                },
            ),
        }
    }
}

/// Every registration status's wire string parses back to it: the strings are pairwise distinct.
pub proof fn lemma_registration_status_round_trip(f: RegistrationStatus)
    ensures
        RegistrationStatus::named(f.name()) == Some(f),
{
    reveal_strlit("ANNULLED");
    assert("ANNULLED"@.len() == 8);
    reveal_strlit("CANCELLED");
    assert("CANCELLED"@.len() == 9);
    reveal_strlit("DUPLICATE");
    assert("DUPLICATE"@.len() == 9);
    reveal_strlit("ISSUED");
    assert("ISSUED"@.len() == 6);
    reveal_strlit("LAPSED");
    assert("LAPSED"@.len() == 6);
    reveal_strlit("MERGED");
    assert("MERGED"@.len() == 6);
    reveal_strlit("PENDING_ARCHIVAL");
    assert("PENDING_ARCHIVAL"@.len() == 16);
    reveal_strlit("PENDING_TRANSFER");
    assert("PENDING_TRANSFER"@.len() == 16);
    reveal_strlit("PENDING_VALIDATION");
    assert("PENDING_VALIDATION"@.len() == 18);
    reveal_strlit("PUBLISHED");
    assert("PUBLISHED"@.len() == 9);
    reveal_strlit("RETIRED");
    assert("RETIRED"@.len() == 7);
    reveal_strlit("TRANSFERRED");
    assert("TRANSFERRED"@.len() == 11);
    match f {
        RegistrationStatus::Annulled => {},
        RegistrationStatus::Cancelled => {},
        RegistrationStatus::Duplicate => {
            assert("DUPLICATE"@[0] != "CANCELLED"@[0]);
        },
        RegistrationStatus::Issued => {},
        RegistrationStatus::Lapsed => {
            assert("LAPSED"@[0] != "ISSUED"@[0]);
        },
        RegistrationStatus::Merged => {
            assert("MERGED"@[0] != "ISSUED"@[0]);
            assert("MERGED"@[0] != "LAPSED"@[0]);
        },
        RegistrationStatus::PendingArchival => {},
        RegistrationStatus::PendingTransfer => {
            assert("PENDING_TRANSFER"@[8] != "PENDING_ARCHIVAL"@[8]);
        },
        RegistrationStatus::PendingValidation => {},
        RegistrationStatus::Published => {
            assert("PUBLISHED"@[0] != "CANCELLED"@[0]);
            assert("PUBLISHED"@[0] != "DUPLICATE"@[0]);
        },
        RegistrationStatus::Retired => {},
        RegistrationStatus::Transferred => {},
    }
}

impl ConformityFlag {
    /// The canonical wire string of this conformity flag.
    pub open spec fn name(self) -> Seq<char> {
        match self {
            Self::Conforming => "CONFORMING"@,
            Self::NonConforming => "NON_CONFORMING"@,
            Self::NotApplicable => "NOT_APPLICABLE"@,
        }
    }

    /// The conformity flag whose wire string is `s`, if any.
    pub open spec fn named(s: Seq<char>) -> Option<ConformityFlag> {
        if s == "CONFORMING"@ {
            Some(Self::Conforming)
        } else if s == "NON_CONFORMING"@ {
            Some(Self::NonConforming)
        } else if s == "NOT_APPLICABLE"@ {
            Some(Self::NotApplicable)
        } else {
            None
        }
    }

    /// Returns the canonical string representation for the API.
    pub fn as_str(&self) -> (r: &'static str)
        ensures
            r@ == self.name(),
    {
        match self {
            Self::Conforming => "CONFORMING",
            Self::NonConforming => "NON_CONFORMING",
            Self::NotApplicable => "NOT_APPLICABLE",
        }
    }

    /// The wire string as an owned `String`.
    pub fn to_string(&self) -> (r: String)
        ensures
            r@ == self.name(),
    {
        owned(self.as_str())
    }

    /// The wire string, borrowed.
    pub fn as_ref(&self) -> (r: &'static str)
        ensures
            r@ == self.name(),
    {
        self.as_str()
    }

    /// The conformity flag whose wire string is `s`, if any.
    fn lookup(s: &str) -> (r: Option<ConformityFlag>)
        ensures
            r == Self::named(s@),
    {
        if same_text(s, "CONFORMING") {
            Some(Self::Conforming)
        } else if same_text(s, "NON_CONFORMING") {
            Some(Self::NonConforming)
        } else if same_text(s, "NOT_APPLICABLE") {
            Some(Self::NotApplicable)
        } else {
            None
        }
    }

    /// Parse the wire string of a conformity flag; any other text is a parse error of
    /// kind [`ParseErrorKind::Value`].
    pub fn from_str(s: &str) -> (r: Result<ConformityFlag, GleifError>)
        ensures
            match ConformityFlag::named(s@) {
                None => r is Err && r->Err_0.parse_kind() == Some(ParseErrorKind::Value),
                Some(v) => r == Ok::<ConformityFlag, GleifError>(v),
            },
    {
        match Self::lookup(s) {
            Some(v) => Ok(v),
            None => Err(
                GleifError::ParseError {
                    kind: ParseErrorKind::Value,
                    message: owned("Unknown ConformityFlag variant"),
                },
            ),
        }
    }
}

/// Every conformity flag's wire string parses back to it: the strings are pairwise distinct.
pub proof fn lemma_conformity_flag_round_trip(f: ConformityFlag)
    ensures
        ConformityFlag::named(f.name()) == Some(f),
{
    reveal_strlit("CONFORMING");
    assert("CONFORMING"@.len() == 10);
    reveal_strlit("NON_CONFORMING");
    assert("NON_CONFORMING"@.len() == 14);
    reveal_strlit("NOT_APPLICABLE");
    assert("NOT_APPLICABLE"@.len() == 14);
    match f {
        ConformityFlag::Conforming => {},
        ConformityFlag::NonConforming => {},
        ConformityFlag::NotApplicable => {
            assert("NOT_APPLICABLE"@[2] != "NON_CONFORMING"@[2]);
        },
    }
}

impl std::str::FromStr for EntityCategory {
    type Err = GleifError;

    fn from_str(s: &str) -> Result<EntityCategory, GleifError> {
        EntityCategory::from_str(s)
    }
}

impl std::str::FromStr for RegistrationStatus {
    type Err = GleifError;

    fn from_str(s: &str) -> Result<RegistrationStatus, GleifError> {
        RegistrationStatus::from_str(s)
    }
}

impl std::str::FromStr for ConformityFlag {
    type Err = GleifError;

    fn from_str(s: &str) -> Result<ConformityFlag, GleifError> {
        ConformityFlag::from_str(s)
    }
}

} // verus!
