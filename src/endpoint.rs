//! The API's endpoints, as request builders on a client.
//!
//! Collections and per-entity listings return a [`GleifRequestBuilder`] for
//! further filtering; single resources are reached with [`GleifClient::resource`]
//! and [`GleifClient::related`].
use crate::client::GleifClient;
use crate::request_builder::{GleifRequestBuilder, HttpMethod};
use crate::text::joined;
use vstd::prelude::*;

verus! {

/// `collection/id`.
pub open spec fn resource_path(collection: Seq<char>, id: Seq<char>) -> Seq<char> {
    collection + "/"@ + id
}

/// `collection/id/relation`.
pub open spec fn related_path(collection: Seq<char>, id: Seq<char>, relation: Seq<char>) -> Seq<char> {
    collection + "/"@ + id + "/"@ + relation
}

/// `endpoint?field=<field>&q=<q>`.
pub open spec fn completion_path(endpoint: Seq<char>, field: Seq<char>, q: Seq<char>) -> Seq<char> {
    endpoint + "?field="@ + field + "&q="@ + q
}

impl GleifClient {
    /// A GET request on the resource `id` of `collection`.
    pub fn resource(&self, collection: &str, id: &str) -> (r: GleifRequestBuilder)
        ensures
            r.wf(),
            r@.method == HttpMethod::Get,
            r@.path == resource_path(collection@, id@),
            r@.query == Map::<Seq<char>, Seq<char>>::empty(),
    {
        let mut path = joined(collection, "/");
        path.append(id);
        self.request(path.as_str())
    }

    /// A GET request on `relation` of the resource `id` of `collection`.
    pub fn related(&self, collection: &str, id: &str, relation: &str) -> (r: GleifRequestBuilder)
        ensures
            r.wf(),
            r@.method == HttpMethod::Get,
            r@.path == related_path(collection@, id@, relation@),
            r@.query == Map::<Seq<char>, Seq<char>>::empty(),
    {
        let mut path = joined(collection, "/");
        path.append(id);
        path.append("/");
        path.append(relation);
        self.request(path.as_str())
    }

    /// A GET request for completions of `q` on `field`, from `endpoint`.
    pub fn completions(&self, endpoint: &str, field: &str, q: &str) -> (r: GleifRequestBuilder)
        ensures
            r.wf(),
            r@.method == HttpMethod::Get,
            r@.path == completion_path(endpoint@, field@, q@),
            r@.query == Map::<Seq<char>, Seq<char>>::empty(),
    {
        let mut path = joined(endpoint, "?field=");
        path.append(field);
        path.append("&q=");
        path.append(q);
        self.request(path.as_str())
    }

    /// LEI records.
    pub fn lei_records(&self) -> (r: GleifRequestBuilder)
        ensures
            r.wf(),
            r@.method == HttpMethod::Get,
            r@.path == "lei-records"@,
            r@.query == Map::<Seq<char>, Seq<char>>::empty(),
    {
        self.request("lei-records")
    }

    /// LEI issuers (Local Operating Units).
    pub fn lei_issuers(&self) -> (r: GleifRequestBuilder)
        ensures
            r.wf(),
            r@.method == HttpMethod::Get,
            r@.path == "lei-issuers"@,
            r@.query == Map::<Seq<char>, Seq<char>>::empty(),
    {
        self.request("lei-issuers")
    }

    /// Fields that can be filtered on.
    pub fn fields(&self) -> (r: GleifRequestBuilder)
        ensures
            r.wf(),
            r@.method == HttpMethod::Get,
            r@.path == "fields"@,
            r@.query == Map::<Seq<char>, Seq<char>>::empty(),
    {
        self.request("fields")
    }

    /// Fuzzy completions.
    pub fn fuzzycompletions(&self) -> (r: GleifRequestBuilder)
        ensures
            r.wf(),
            r@.method == HttpMethod::Get,
            r@.path == "fuzzycompletions"@,
            r@.query == Map::<Seq<char>, Seq<char>>::empty(),
    {
        self.request("fuzzycompletions")
    }

    /// vLEI issuers.
    pub fn vlei_issuers(&self) -> (r: GleifRequestBuilder)
        ensures
            r.wf(),
            r@.method == HttpMethod::Get,
            r@.path == "vlei-issuers"@,
            r@.query == Map::<Seq<char>, Seq<char>>::empty(),
    {
        self.request("vlei-issuers")
    }

    /// Countries.
    pub fn countries(&self) -> (r: GleifRequestBuilder)
        ensures
            r.wf(),
            r@.method == HttpMethod::Get,
            r@.path == "countries"@,
            r@.query == Map::<Seq<char>, Seq<char>>::empty(),
    {
        self.request("countries")
    }

    /// Entity legal forms.
    pub fn entity_legal_forms(&self) -> (r: GleifRequestBuilder)
        ensures
            r.wf(),
            r@.method == HttpMethod::Get,
            r@.path == "entity-legal-forms"@,
            r@.query == Map::<Seq<char>, Seq<char>>::empty(),
    {
        self.request("entity-legal-forms")
    }

    /// Official organizational roles.
    pub fn official_organizational_roles(&self) -> (r: GleifRequestBuilder)
        ensures
            r.wf(),
            r@.method == HttpMethod::Get,
            r@.path == "official-organizational-roles"@,
            r@.query == Map::<Seq<char>, Seq<char>>::empty(),
    {
        self.request("official-organizational-roles")
    }

    /// Jurisdictions.
    pub fn jurisdictions(&self) -> (r: GleifRequestBuilder)
        ensures
            r.wf(),
            r@.method == HttpMethod::Get,
            r@.path == "jurisdictions"@,
            r@.query == Map::<Seq<char>, Seq<char>>::empty(),
    {
        self.request("jurisdictions")
    }

    /// Regions.
    pub fn regions(&self) -> (r: GleifRequestBuilder)
        ensures
            r.wf(),
            r@.method == HttpMethod::Get,
            r@.path == "regions"@,
            r@.query == Map::<Seq<char>, Seq<char>>::empty(),
    {
        self.request("regions")
    }

    /// Registration authorities.
    pub fn registration_authorities(&self) -> (r: GleifRequestBuilder)
        ensures
            r.wf(),
            r@.method == HttpMethod::Get,
            r@.path == "registration-authorities"@,
            r@.query == Map::<Seq<char>, Seq<char>>::empty(),
    {
        self.request("registration-authorities")
    }

    /// Registration agents.
    pub fn registration_agents(&self) -> (r: GleifRequestBuilder)
        ensures
            r.wf(),
            r@.method == HttpMethod::Get,
            r@.path == "registration-agents"@,
            r@.query == Map::<Seq<char>, Seq<char>>::empty(),
    {
        self.request("registration-agents")
    }

    /// Relationship records of the direct children of an entity.
    pub fn direct_child_relationships(&self, lei: &str) -> (r: GleifRequestBuilder)
        ensures
            r.wf(),
            r@.method == HttpMethod::Get,
            r@.path == related_path("lei-records"@, lei@, "direct-child-relationships"@),
            r@.query == Map::<Seq<char>, Seq<char>>::empty(),
    {
        self.related("lei-records", lei, "direct-child-relationships")
    }

    /// LEI records of the direct children of an entity.
    pub fn direct_children(&self, lei: &str) -> (r: GleifRequestBuilder)
        ensures
            r.wf(),
            r@.method == HttpMethod::Get,
            r@.path == related_path("lei-records"@, lei@, "direct-children"@),
            r@.query == Map::<Seq<char>, Seq<char>>::empty(),
    {
        self.related("lei-records", lei, "direct-children")
    }

    /// Relationship records of the ultimate children of an entity.
    pub fn ultimate_child_relationships(&self, lei: &str) -> (r: GleifRequestBuilder)
        ensures
            r.wf(),
            r@.method == HttpMethod::Get,
            r@.path == related_path("lei-records"@, lei@, "ultimate-child-relationships"@),
            r@.query == Map::<Seq<char>, Seq<char>>::empty(),
    {
        self.related("lei-records", lei, "ultimate-child-relationships")
    }

    /// LEI records of the ultimate children of an entity.
    pub fn ultimate_children(&self, lei: &str) -> (r: GleifRequestBuilder)
        ensures
            r.wf(),
            r@.method == HttpMethod::Get,
            r@.path == related_path("lei-records"@, lei@, "ultimate-children"@),
            r@.query == Map::<Seq<char>, Seq<char>>::empty(),
    {
        self.related("lei-records", lei, "ultimate-children")
    }

    /// Modifications of an LEI record's fields.
    pub fn field_modifications(&self, lei: &str) -> (r: GleifRequestBuilder)
        ensures
            r.wf(),
            r@.method == HttpMethod::Get,
            r@.path == related_path("lei-records"@, lei@, "field-modifications"@),
            r@.query == Map::<Seq<char>, Seq<char>>::empty(),
    {
        self.related("lei-records", lei, "field-modifications")
    }

    /// ISINs of an entity.
    pub fn isins(&self, lei: &str) -> (r: GleifRequestBuilder)
        ensures
            r.wf(),
            r@.method == HttpMethod::Get,
            r@.path == related_path("lei-records"@, lei@, "isins"@),
            r@.query == Map::<Seq<char>, Seq<char>>::empty(),
    {
        self.related("lei-records", lei, "isins")
    }

    /// Jurisdictions that an LEI issuer serves.
    pub fn lei_issuer_jurisdictions(&self, lei: &str) -> (r: GleifRequestBuilder)
        ensures
            r.wf(),
            r@.method == HttpMethod::Get,
            r@.path == related_path("lei-issuers"@, lei@, "jurisdictions"@),
            r@.query == Map::<Seq<char>, Seq<char>>::empty(),
    {
        self.related("lei-issuers", lei, "jurisdictions")
    }
}

} // verus!
