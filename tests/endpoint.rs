use gleif_rs::client::GleifClient;

fn test_client() -> GleifClient {
    GleifClient::from_reqwest_client(reqwest::Client::new())
}

#[test]
fn test_endpoint_path_construction() {
    let c = test_client();

    let lei = "5493000IBP32UQZ0KL24";

    let record_path = format!("lei-records/{}", lei);
    assert_eq!(c.request(&record_path).get_path(), record_path);

    let direct_parent_rel_path = format!("lei-records/{}/direct-parent-relationship", lei);
    assert_eq!(
        c.request(&direct_parent_rel_path).get_path(),
        direct_parent_rel_path
    );

    let direct_parent_path = format!("lei-records/{}/direct-parent", lei);
    assert_eq!(
        c.request(&direct_parent_path).get_path(),
        direct_parent_path
    );

    let builder = c.direct_child_relationships(lei);
    assert_eq!(
        builder.get_path(),
        format!("lei-records/{}/direct-child-relationships", lei)
    );

    let builder = c.direct_children(lei);
    assert_eq!(
        builder.get_path(),
        format!("lei-records/{}/direct-children", lei)
    );

    let lei_issuer_path = format!("lei-issuers/{}", lei);
    assert_eq!(c.request(&lei_issuer_path).get_path(), lei_issuer_path);

    let vlei_issuer_path = format!("vlei-issuers/{}", lei);
    assert_eq!(c.request(&vlei_issuer_path).get_path(), vlei_issuer_path);

    let country_code = "US";
    let country_path = format!("countries/{}", country_code);
    assert_eq!(c.request(&country_path).get_path(), country_path);
}

#[test]
fn test_complex_query_construction() {
    let c = test_client();

    let builder = c
        .lei_records()
        .filter_eq("entity.status", "ACTIVE")
        .filter_eq("entity.legalAddress.country", "DE")
        .filter_not_in("entity.legalForm.id", &["8888", "9999"])
        .sort("entity.legalName")
        .page_size(25)
        .page_number(2);

    let query = builder.get_query();
    assert_eq!(query.get("filter[entity.status]").unwrap(), "ACTIVE");
    assert_eq!(
        query.get("filter[entity.legalAddress.country]").unwrap(),
        "DE"
    );
    assert_eq!(
        query.get("filter[entity.legalForm.id]").unwrap(),
        "!8888,9999"
    );
    assert_eq!(query.get("sort").unwrap(), "entity.legalName");
    assert_eq!(query.get("page[size]").unwrap(), "25");
    assert_eq!(query.get("page[number]").unwrap(), "2");

    let builder = c
        .lei_records()
        .filter_range(
            "registration.initialRegistrationDate",
            "2021-01-01",
            "2021-12-31",
        )
        .filter_gte("registration.nextRenewalDate", "2022-01-01")
        .filter_lt("registration.managingLOU.id", "9");

    let query = builder.get_query();
    assert_eq!(
        query
            .get("filter[registration.initialRegistrationDate]")
            .unwrap(),
        "2021-01-01..2021-12-31"
    );
    assert_eq!(
        query.get("filter[registration.nextRenewalDate]").unwrap(),
        ">=2022-01-01"
    );
    assert_eq!(
        query.get("filter[registration.managingLOU.id]").unwrap(),
        "<9"
    );
}

#[test]
fn test_request_chaining_and_immutability() {
    let c = test_client();

    let base_query = c.lei_records().filter_eq("entity.status", "ACTIVE");

    let query1 = base_query
        .clone()
        .filter_eq("entity.legalAddress.country", "US");

    let query2 = base_query
        .clone()
        .filter_eq("entity.legalAddress.country", "DE");

    assert_eq!(
        base_query.get_query().get("filter[entity.status]").unwrap(),
        "ACTIVE"
    );
    assert!(
        base_query
            .get_query()
            .get("filter[entity.legalAddress.country]")
            .is_none()
    );

    assert_eq!(
        query1
            .get_query()
            .get("filter[entity.legalAddress.country]")
            .unwrap(),
        "US"
    );
    assert_eq!(
        query2
            .get_query()
            .get("filter[entity.legalAddress.country]")
            .unwrap(),
        "DE"
    );
}

#[test]
fn test_client_with_custom_config() {
    let reqwest_client = reqwest::Client::new();
    let middleware_client = reqwest_middleware::ClientBuilder::new(reqwest_client).build();
    let c = GleifClient::from_middleware_client(middleware_client);

    let builder = c.lei_records().filter_eq("entity.legalName", "test");
    assert_eq!(
        builder.get_query().get("filter[entity.legalName]").unwrap(),
        "test"
    );
}

#[test]
fn test_child_and_parent_endpoint_paths() {
    let c = test_client();
    let lei = "5493000IBP32UQZ0KL24";

    let builder = c.ultimate_child_relationships(lei);
    assert_eq!(
        builder.get_path(),
        format!("lei-records/{}/ultimate-child-relationships", lei)
    );

    let builder = c.ultimate_children(lei);
    assert_eq!(
        builder.get_path(),
        format!("lei-records/{}/ultimate-children", lei)
    );

    let builder = c.field_modifications(lei);
    assert_eq!(
        builder.get_path(),
        format!("lei-records/{}/field-modifications", lei)
    );

    let builder = c.isins(lei);
    assert_eq!(builder.get_path(), format!("lei-records/{}/isins", lei));
}

#[test]
fn test_specialized_endpoint_methods() {
    let c = test_client();
    let country_code = "GB";

    let builder = c.entity_legal_forms().filter_eq("country", country_code);
    assert_eq!(
        builder.get_query().get("filter[country]").unwrap(),
        country_code
    );

    let builder = c.jurisdictions().page_size(50);
    assert_eq!(builder.get_query().get("page[size]").unwrap(), "50");

    let builder = c
        .registration_authorities()
        .filter_eq("country", country_code)
        .filter_eq("name", "Companies House")
        .sort("name");

    assert_eq!(
        builder.get_query().get("filter[country]").unwrap(),
        country_code
    );
    assert_eq!(
        builder.get_query().get("filter[name]").unwrap(),
        "Companies House"
    );
    assert_eq!(builder.get_query().get("sort").unwrap(), "name");
}

#[test]
fn resource_related_and_completion_paths() {
    let c = test_client();
    assert_eq!(c.resource("countries", "GB").get_path(), "countries/GB");
    assert_eq!(
        c.related("lei-issuers", "X", "jurisdictions").get_path(),
        "lei-issuers/X/jurisdictions"
    );
    assert_eq!(c.lei_issuer_jurisdictions("X").get_path(), "lei-issuers/X/jurisdictions");
    assert_eq!(
        c.completions("autocompletions", "fulltext", "acme").get_path(),
        "autocompletions?field=fulltext&q=acme"
    );
    assert_eq!(c.regions().get_path(), "regions");
    assert_eq!(c.official_organizational_roles().get_path(), "official-organizational-roles");
}
