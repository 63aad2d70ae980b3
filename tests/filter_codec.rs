use gleif_rs::filter::Filter;

fn strings(vs: &[&str]) -> Vec<String> {
    vs.iter().map(|s| s.to_string()).collect()
}

fn same(a: &Filter, b: &Filter) -> bool {
    format!("{a:?}") == format!("{b:?}")
}

#[test]
fn filter_codec_round_trips_each_operator() {
    let filters = vec![
        Filter::Eq("ACTIVE".to_string()),
        Filter::Not("ACTIVE".to_string()),
        Filter::In(strings(&["FUND", "BRANCH", "GENERAL"])),
        Filter::NotIn(strings(&["8888", "9999"])),
        Filter::Range("2021-01-01".to_string(), "2021-12-31".to_string()),
        Filter::Gt("123".to_string()),
        Filter::Gte("2022-01-01".to_string()),
        Filter::Lt("9".to_string()),
        Filter::Lte("1.5".to_string()),
    ];
    for f in &filters {
        let wire = f.encode();
        let back = Filter::parse(&wire);
        assert!(same(f, &back), "{f:?} -> {wire} -> {back:?}");
    }
}

#[test]
fn filter_codec_exact_wire_strings() {
    assert_eq!(Filter::Eq("v".to_string()).encode(), "v");
    assert_eq!(Filter::Not("v".to_string()).encode(), "!v");
    assert_eq!(Filter::In(strings(&["v1", "v2", "v3"])).encode(), "v1,v2,v3");
    assert_eq!(Filter::NotIn(strings(&["v1", "v2", "v3"])).encode(), "!v1,v2,v3");
    assert_eq!(Filter::Range("min".to_string(), "max".to_string()).encode(), "min..max");
    assert_eq!(Filter::Gt("v".to_string()).encode(), ">v");
    assert_eq!(Filter::Gte("v".to_string()).encode(), ">=v");
    assert_eq!(Filter::Lt("v".to_string()).encode(), "<v");
    assert_eq!(Filter::Lte("v".to_string()).encode(), "<=v");
}

#[test]
fn filter_codec_parses_wire_strings() {
    assert!(same(&Filter::parse(">=5"), &Filter::Gte("5".to_string())));
    assert!(same(&Filter::parse(">5"), &Filter::Gt("5".to_string())));
    assert!(same(&Filter::parse("<=5"), &Filter::Lte("5".to_string())));
    assert!(same(&Filter::parse("<5"), &Filter::Lt("5".to_string())));
    assert!(same(&Filter::parse("!a,b"), &Filter::NotIn(strings(&["a", "b"]))));
    assert!(same(&Filter::parse("!a"), &Filter::Not("a".to_string())));
    assert!(same(&Filter::parse("a,,b"), &Filter::In(strings(&["a", "", "b"]))));
    assert!(same(&Filter::parse("a...b"), &Filter::Range("a".to_string(), ".b".to_string())));
    assert!(same(&Filter::parse(""), &Filter::Eq(String::new())));
    assert!(same(&Filter::parse("Ä.b"), &Filter::Eq("Ä.b".to_string())));
}

#[test]
fn filter_codec_one_value_set_reads_as_exact_match() {
    let wire = Filter::In(strings(&["only"])).encode();
    assert_eq!(wire, "only");
    assert!(same(&Filter::parse(&wire), &Filter::Eq("only".to_string())));
}
