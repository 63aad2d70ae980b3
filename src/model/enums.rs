//! Data model: enumerated values that appear in records.
use vstd::prelude::*;

verus! {

/// The entity name type values.
#[allow(clippy::enum_variant_names)]
#[derive(Debug, Clone, PartialEq, Eq)]
pub enum EntityNameType {
    AlternativeLanguageLegalName,
    PreviousLegalName,
    TradingOrOperatingName,
}

/// The entity category values.
#[derive(Debug, Clone, PartialEq, Eq, Hash)]
pub enum EntityCategory {
    Branch,
    Fund,
    General,
    InternationalOrganization,
    ResidentGovernmentEntity,
    SoleProprietor,
}

/// The transliterated name type values.
#[derive(Debug, Clone, PartialEq, Eq)]
pub enum TransliteratedNameType {
    AutoAsciiTransliteratedLegalName,
    PreferredAsciiTransliteratedLegalName,
}

/// The other address type values.
#[allow(clippy::enum_variant_names)]
#[derive(Debug, Clone, PartialEq, Eq)]
pub enum OtherAddressType {
    AlternativeLanguageHeadquartersAddress,
    AlternativeLanguageLegalAddress,
}

/// The transliterated adress type values.
#[derive(Debug, Clone, PartialEq, Eq)]
pub enum TransliteratedAdressType {
    AutoAsciiTransliteratedHeadquartersAddress,
    AutoAsciiTransliteratedLegalAddress,
    PreferredAsciiTransliteratedHeadquartersAddress,
    PreferredAsciiTransliteratedLegalAddress,
}

/// The entity sub category values.
#[derive(Debug, Clone, PartialEq, Eq)]
pub enum EntitySubCategory {
    CentralGovernment,
    LocalGovernment,
    SocialSecurity,
    StateGovernment,
}

/// The associated entity type values.
#[derive(Debug, Clone, PartialEq, Eq)]
pub enum AssociatedEntityType {
    FundFamily,
}

/// The entity status values.
#[derive(Debug, Clone, PartialEq, Eq)]
pub enum EntityStatus {
    Active,
    Inactive,
    Null,
}

/// The expiration reason values.
#[derive(Debug, Clone, PartialEq, Eq)]
pub enum ExpirationReason {
    CorporateAction,
    Dissolved,
    Other,
}

/// The group type values.
#[derive(Debug, Clone, PartialEq, Eq)]
pub enum GroupType {
    ChangeLegalFormAndName,
    ComplexChangeLegalForm,
    ReverseTakeover,
    Standalone,
}

/// The event type values.
#[derive(Debug, Clone, PartialEq, Eq)]
pub enum EventType {
    Absorption,
    AcquisitionBranch,
    Bankruptcy,
    Breakup,
    ChangeHqAddress,
    ChangeLegalAddress,
    ChangeLegalForm,
    ChangeLegalName,
    ChangeOtherNames,
    Demerger,
    Dissolution,
    Insolvency,
    Liquidation,
    MergersAndAcquisitions,
    Spinoff,
    TransformationBranchToSubsidiary,
    TransformationSubsidiaryToBranch,
    TransformationUmbrellaToStandalone,
    VoluntaryArrangement,
}

/// The event status values.
#[derive(Debug, Clone, PartialEq, Eq)]
pub enum EventStatus {
    Completed,
    InProgress,
    WithdrawnCancelled,
}

/// The conformity flag values.
#[derive(Debug, Clone, PartialEq, Eq, Hash)]
pub enum ConformityFlag {
    Conforming,
    NonConforming,
    NotApplicable,
}

/// The relationship type values.
#[derive(Debug, Clone, PartialEq, Eq)]
pub enum RelationshipType {
    IsDirectlyConsolidatedBy,
    IsFeederTo,
    IsFundManagedBy,
    IsInternationalBranchOf,
    IsSubfundOf,
    IsUltimatelyConsolidatedBy,
}

/// The relationship period type values.
#[derive(Debug, Clone, PartialEq, Eq)]
pub enum RelationshipPeriodType {
    AccountingPeriod,
    DocumentFilingPeriod,
    RelationshipPeriod,
}

/// The relationship status values.
#[derive(Debug, Clone, PartialEq, Eq)]
pub enum RelationshipStatus {
    Active,
    Inactive,
    Null,
}

/// The qualifier dimension values.
#[derive(Debug, Clone, PartialEq, Eq)]
pub enum QualifierDimension {
    AccountingStandard,
}

/// The qualifier category type values.
#[derive(Debug, Clone, PartialEq, Eq)]
pub enum QualifierCategoryType {
    GovernmentAccountingStandard,
    Ifrs,
    OtherAccountingStandard,
    UsGaap,
}

/// The measurement method type values.
#[derive(Debug, Clone, PartialEq, Eq)]
pub enum MeasurementMethodType {
    AccountingConsolidation,
}

/// The quantifier units type values.
#[derive(Debug, Clone, PartialEq, Eq)]
pub enum QuantifierUnitsType {
    Percentage,
}

/// The registration status values.
#[derive(Debug, Clone, PartialEq, Eq, Hash)]
pub enum RegistrationStatus {
    Annulled,
    Cancelled,
    Duplicate,
    Issued,
    Lapsed,
    Merged,
    PendingArchival,
    PendingTransfer,
    PendingValidation,
    Published,
    Retired,
    Transferred,
}

/// The corroboration documents values.
#[derive(Debug, Clone, PartialEq, Eq)]
pub enum CorroborationDocuments {
    AccountsFiling,
    Contracts,
    OtherOfficialDocuments,
    RegulatoryFiling,
    SupportingDocuments,
}

/// The corroboration level values.
#[derive(Debug, Clone, PartialEq, Eq)]
pub enum CorroborationLevel {
    EntitySuppliedOnly,
    FullyCorroborated,
    PartiallyCorroborated,
    Pending,
}

/// The e l f status values.
#[derive(Debug, Clone, PartialEq, Eq)]
pub enum ELFStatus {
    Actv,
    Inac,
}

} // verus!
