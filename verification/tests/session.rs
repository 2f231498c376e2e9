use access_log_parser::session::{
    add_facet, remove_facet, set_facet_match_type, set_filtered_for_facet_value, Facet, FacetValue,
    MatchType, SortingState,
};

fn sample() -> Vec<Facet> {
    vec![
        Facet {
            property: "status".to_string(),
            match_type: MatchType::OR,
            values: vec![
                FacetValue { value: "200".to_string(), filtered: false, total: 7 },
                FacetValue { value: "404".to_string(), filtered: false, total: 2 },
            ],
        },
        Facet {
            property: "method".to_string(),
            match_type: MatchType::AND,
            values: vec![FacetValue { value: "GET".to_string(), filtered: true, total: 9 }],
        },
    ]
}

#[test]
fn match_type_from_alias_defaults_to_or() {
    assert_eq!(MatchType::from_alias("AND"), MatchType::AND);
    assert_eq!(MatchType::from_alias("OR"), MatchType::OR);
    assert_eq!(MatchType::from_alias("anything"), MatchType::OR);
}

#[test]
fn add_facet_appends_empty_facet() {
    let fs = add_facet(sample(), "path".to_string(), MatchType::AND);
    assert_eq!(fs.len(), 3);
    assert_eq!(fs[2].property, "path");
    assert_eq!(fs[2].match_type, MatchType::AND);
    assert!(fs[2].values.is_empty());
}

#[test]
fn set_facet_match_type_hits_first_match_only() {
    let fs = set_facet_match_type(sample(), "status", MatchType::AND);
    assert_eq!(fs[0].match_type, MatchType::AND);
    assert_eq!(fs[1].match_type, MatchType::AND);
    assert_eq!(fs[0].values.len(), 2);
    let unchanged = set_facet_match_type(sample(), "missing", MatchType::AND);
    assert_eq!(unchanged, sample());
}

#[test]
fn remove_facet_drops_matching_property() {
    let fs = remove_facet(sample(), "status");
    assert_eq!(fs.len(), 1);
    assert_eq!(fs[0].property, "method");
    let unchanged = remove_facet(sample(), "missing");
    assert_eq!(unchanged, sample());
}

#[test]
fn set_filtered_flips_one_value() {
    let fs = set_filtered_for_facet_value(sample(), "status", "404", true);
    assert_eq!(fs[0].values[0].filtered, false);
    assert_eq!(fs[0].values[1].filtered, true);
    assert_eq!(fs[0].values[1].total, 2);
    assert_eq!(fs[1], sample()[1]);
    let unchanged = set_filtered_for_facet_value(sample(), "status", "500", true);
    assert_eq!(unchanged, sample());
}

#[test]
fn sorting_state_is_plain_data() {
    let s = SortingState { id: "timestamp".to_string(), desc: true };
    assert_eq!(s.id, "timestamp");
    assert!(s.desc);
}
