use trmnl_plugin_server::station_table::{Line, StationRecord, ALTERNATE_STATIONS, STATIONS};
use trmnl_plugin_server::stations::{
    base_code_of, find_code, get_gtfs_id_from_station_name, get_gtfs_id_from_station_name_primary,
    get_station_name_from_gtfs_id, resolve_code_to_name, resolve_name_to_code,
    resolve_name_to_code_on_line, rule_applies, select_record, smallest_match, smallest_on_line,
    MatchRule,
};

fn chars(s: &str) -> Vec<char> {
    s.chars().collect()
}

#[test]
fn known_code_resolves_to_its_name() {
    assert_eq!(get_station_name_from_gtfs_id("A10"), "Embarcadero (SF)");
    assert_eq!(get_station_name_from_gtfs_id("M16"), "Montgomery St. (SF)");
    assert_eq!(get_station_name_from_gtfs_id("L30"), "12th St. Oakland City Center");
    assert_eq!(get_station_name_from_gtfs_id("SFIA"), "San Francisco Int'l Airport");
    assert_eq!(get_station_name_from_gtfs_id("OAKL"), "Oakland Int'l Airport");
}

#[test]
fn platform_suffix_is_dropped() {
    assert_eq!(get_station_name_from_gtfs_id("M16-1"), "Montgomery St. (SF)");
    assert_eq!(get_station_name_from_gtfs_id("M16-2"), "Montgomery St. (SF)");
    assert_eq!(get_station_name_from_gtfs_id("A10-1"), "Embarcadero (SF)");
    assert_eq!(get_station_name_from_gtfs_id("WCRK-2"), "Walnut Creek");
}

#[test]
fn every_code_resolves_alike_with_and_without_suffix() {
    for record in STATIONS.iter() {
        let plain = get_station_name_from_gtfs_id(record.0);
        assert_eq!(plain, record.1);
        assert_eq!(get_station_name_from_gtfs_id(&format!("{}-1", record.0)), plain);
        assert_eq!(get_station_name_from_gtfs_id(&format!("{}-2", record.0)), plain);
    }
}

#[test]
fn only_the_first_separator_counts() {
    assert_eq!(get_station_name_from_gtfs_id("A10-1-extra"), "Embarcadero (SF)");
    assert_eq!(get_station_name_from_gtfs_id("A10-"), "Embarcadero (SF)");
    assert_eq!(base_code_of("A10-1-extra"), chars("A10"));
    assert_eq!(base_code_of("-A10"), chars(""));
    assert_eq!(base_code_of("A10"), chars("A10"));
    assert_eq!(base_code_of(""), chars(""));
}

#[test]
fn unknown_identifier_comes_back_unchanged() {
    assert_eq!(get_station_name_from_gtfs_id("ZZZ"), "ZZZ");
    assert_eq!(get_station_name_from_gtfs_id("ZZZ-1"), "ZZZ-1");
    assert_eq!(get_station_name_from_gtfs_id(""), "");
    assert_eq!(get_station_name_from_gtfs_id("-A10"), "-A10");
    assert_eq!(get_station_name_from_gtfs_id("a10"), "a10");
    assert_eq!(get_station_name_from_gtfs_id("A1"), "A1");
    assert_eq!(get_station_name_from_gtfs_id("A100-2"), "A100-2");
}

#[test]
fn first_record_with_a_code_gives_the_name() {
    let table: [StationRecord; 3] =
        [("X1", "First", Line::A), ("X2", "Second", Line::L), ("X1", "Third", Line::M)];
    assert_eq!(resolve_code_to_name(&table, "X1-9"), "First");
    assert_eq!(resolve_code_to_name(&table, "X2"), "Second");
    assert_eq!(resolve_code_to_name(&table, "X3"), "X3");
    assert_eq!(find_code(&table, &chars("X1")), Some(0));
    assert_eq!(find_code(&table, &chars("X2")), Some(1));
    assert_eq!(find_code(&table, &chars("X")), None);
    let empty: [StationRecord; 0] = [];
    assert_eq!(resolve_code_to_name(&empty, "A10-1"), "A10-1");
}

#[test]
fn exact_name_resolves_to_smallest_code() {
    // "Embarcadero (SF)" is carried by A10, M10 and EMBR.
    assert_eq!(
        get_gtfs_id_from_station_name_primary("Embarcadero (SF)"),
        Some("A10".to_string())
    );
    // "16th St. Mission (SF)" is carried by A60, M40 and 16TH; a digit sorts first.
    assert_eq!(
        get_gtfs_id_from_station_name_primary("16th St. Mission (SF)"),
        Some("16TH".to_string())
    );
    assert_eq!(get_gtfs_id_from_station_name_primary("Daly City"), Some("DALY".to_string()));
    assert_eq!(get_gtfs_id_from_station_name_primary("Walnut Creek"), Some("WCRK".to_string()));
}

#[test]
fn name_is_matched_without_regard_to_case() {
    assert_eq!(get_gtfs_id_from_station_name_primary("walnut creek"), Some("WCRK".to_string()));
    assert_eq!(get_gtfs_id_from_station_name_primary("WALNUT CREEK"), Some("WCRK".to_string()));
    assert_eq!(
        get_gtfs_id_from_station_name_primary("embarcadero (sf)"),
        Some("A10".to_string())
    );
    assert_eq!(get_gtfs_id_from_station_name("MILLBRAE"), Some("MLBR".to_string()));
}

#[test]
fn name_is_matched_by_a_part_in_either_direction() {
    // The query stands inside one name only.
    assert_eq!(get_gtfs_id_from_station_name_primary("Walnut"), Some("WCRK".to_string()));
    assert_eq!(get_gtfs_id_from_station_name_primary("dublin/"), Some("DUBL".to_string()));
    // A name stands inside the query.
    assert_eq!(
        get_gtfs_id_from_station_name_primary("Orinda Station"),
        Some("ORIN".to_string())
    );
    // Several names hold the query: the smallest code wins.
    assert_eq!(get_gtfs_id_from_station_name_primary("oakland"), Some("12TH".to_string()));
    assert_eq!(get_gtfs_id_from_station_name_primary("Hayward"), Some("HAYW".to_string()));
}

#[test]
fn stronger_rule_wins_over_smaller_code() {
    // "Hayward" is a name of its own and a part of "South Hayward".
    let table: [StationRecord; 2] =
        [("AAA", "South Hayward", Line::Unassigned), ("ZZZ", "Hayward", Line::Unassigned)];
    assert_eq!(resolve_name_to_code(&table, "Hayward"), Some("ZZZ".to_string()));
    assert_eq!(resolve_name_to_code(&table, "hayward"), Some("ZZZ".to_string()));
    assert_eq!(resolve_name_to_code(&table, "ayward"), Some("AAA".to_string()));
    // An exact answer wins over one that differs in case, whatever the codes.
    let cased: [StationRecord; 2] =
        [("AAA", "HAYWARD", Line::Unassigned), ("ZZZ", "Hayward", Line::Unassigned)];
    assert_eq!(resolve_name_to_code(&cased, "Hayward"), Some("ZZZ".to_string()));
    assert_eq!(resolve_name_to_code(&cased, "hAYWARD"), Some("AAA".to_string()));
}

#[test]
fn unmatched_name_is_not_found() {
    assert_eq!(get_gtfs_id_from_station_name_primary("Atlantis"), None);
    assert_eq!(get_gtfs_id_from_station_name("Atlantis"), None);
    let empty: [StationRecord; 0] = [];
    assert_eq!(resolve_name_to_code(&empty, "Walnut Creek"), None);
    assert_eq!(resolve_name_to_code(&empty, ""), None);
}

#[test]
fn empty_name_is_a_part_of_every_name() {
    // The smallest code of the whole list.
    assert_eq!(get_gtfs_id_from_station_name_primary(""), Some("12TH".to_string()));
    assert_eq!(get_gtfs_id_from_station_name(""), Some("A10".to_string()));
}

#[test]
fn alternate_list_knows_short_names_of_the_m_line() {
    assert_eq!(get_gtfs_id_from_station_name("Embarcadero"), Some("M10".to_string()));
    assert_eq!(get_gtfs_id_from_station_name("Embarcadero (SF)"), Some("A10".to_string()));
    assert_eq!(get_gtfs_id_from_station_name("Montgomery St."), Some("M16".to_string()));
    assert_eq!(get_gtfs_id_from_station_name("16th St. Mission"), Some("M40".to_string()));
    assert_eq!(get_gtfs_id_from_station_name("Daly City"), Some("M80".to_string()));
    assert_eq!(get_gtfs_id_from_station_name("West Oakland"), Some("L40".to_string()));
    // In the canonical list the short name is only a part of the full names.
    assert_eq!(get_gtfs_id_from_station_name_primary("Embarcadero"), Some("A10".to_string()));
}

#[test]
fn name_of_a_code_resolves_back_to_a_code_of_that_name() {
    for record in STATIONS.iter() {
        let name = get_station_name_from_gtfs_id(record.0);
        let back = get_gtfs_id_from_station_name_primary(&name).expect("a known name");
        assert_eq!(get_station_name_from_gtfs_id(&back), name);
        let other = get_gtfs_id_from_station_name(&name).expect("a known name");
        assert_eq!(get_station_name_from_gtfs_id(&other), name);
    }
    for record in ALTERNATE_STATIONS.iter() {
        let back = resolve_name_to_code(&ALTERNATE_STATIONS, record.1).expect("a known name");
        assert_eq!(resolve_code_to_name(&ALTERNATE_STATIONS, &back), record.1);
    }
}

#[test]
fn both_lists_have_distinct_plain_codes() {
    for table in [&STATIONS[..], &ALTERNATE_STATIONS[..]] {
        for (i, a) in table.iter().enumerate() {
            assert!(!a.0.contains('-'));
            for b in table.iter().skip(i + 1) {
                assert_ne!(a.0, b.0);
            }
        }
    }
    assert_eq!(STATIONS.len(), 71);
    assert_eq!(ALTERNATE_STATIONS.len(), 58);
    assert_eq!(STATIONS[0].2, Line::A);
    assert_eq!(STATIONS[8].2, Line::L);
    assert_eq!(STATIONS[12].2, Line::M);
    assert_eq!(STATIONS[70].2, Line::Unassigned);
}

#[test]
fn rules_are_judged_on_the_given_lowercase_forms() {
    let name = chars("Glen Park");
    let folded = chars("glen park");
    assert!(rule_applies(MatchRule::Exact, &name, &chars("Glen Park"), &folded, &folded));
    assert!(!rule_applies(MatchRule::Exact, &name, &chars("glen park"), &folded, &folded));
    assert!(rule_applies(MatchRule::IgnoreCase, &name, &chars("GLEN PARK"), &folded, &folded));
    assert!(!rule_applies(
        MatchRule::IgnoreCase,
        &name,
        &chars("Glen"),
        &folded,
        &chars("glen")
    ));
    assert!(rule_applies(MatchRule::Partial, &name, &chars("Glen"), &folded, &chars("glen")));
    assert!(rule_applies(
        MatchRule::Partial,
        &name,
        &chars("Glen Park Station"),
        &folded,
        &chars("glen park station")
    ));
    assert!(rule_applies(MatchRule::Partial, &name, &chars(""), &folded, &chars("")));
    assert!(!rule_applies(MatchRule::Partial, &name, &chars("Glenn"), &folded, &chars("glenn")));
}

#[test]
fn record_is_selected_by_rule_then_by_code() {
    let table: [StationRecord; 4] = [
        ("M60", "Glen Park", Line::M),
        ("A70", "Glen Park", Line::A),
        ("GLEN", "GLEN PARK", Line::Unassigned),
        ("BALB", "Balboa Park", Line::Unassigned),
    ];
    let folded = vec![
        chars("glen park"),
        chars("glen park"),
        chars("glen park"),
        chars("balboa park"),
    ];
    let pick = |query: &str, lowered: &str| {
        select_record(&table, &folded, &chars(query), &chars(lowered), None)
    };
    assert_eq!(pick("Glen Park", "glen park"), Some(1));
    assert_eq!(pick("GLEN PARK", "glen park"), Some(2));
    assert_eq!(pick("glen park", "glen park"), Some(1));
    assert_eq!(pick("Park", "park"), Some(1));
    assert_eq!(pick("boa", "boa"), Some(3));
    assert_eq!(pick("Richmond", "richmond"), None);
    assert_eq!(
        smallest_match(MatchRule::Exact, &table, &folded, &chars("Park"), &chars("park"), None),
        None
    );
    assert_eq!(
        smallest_match(MatchRule::Partial, &table, &folded, &chars("Park"), &chars("park"), None),
        Some(1)
    );
    assert_eq!(
        smallest_match(
            MatchRule::IgnoreCase,
            &table,
            &folded,
            &chars("x"),
            &chars("glen park"),
            None
        ),
        Some(1)
    );
}

#[test]
fn record_on_the_hinted_line_is_preferred() {
    let table: [StationRecord; 4] = [
        ("M60", "Glen Park", Line::M),
        ("A70", "Glen Park", Line::A),
        ("GLEN", "GLEN PARK", Line::Unassigned),
        ("BALB", "Balboa Park", Line::Unassigned),
    ];
    let folded = vec![
        chars("glen park"),
        chars("glen park"),
        chars("glen park"),
        chars("balboa park"),
    ];
    let pick = |query: &str, lowered: &str, hint: Option<Line>| {
        select_record(&table, &folded, &chars(query), &chars(lowered), hint)
    };
    assert_eq!(pick("Glen Park", "glen park", Some(Line::M)), Some(0));
    assert_eq!(pick("Glen Park", "glen park", Some(Line::A)), Some(1));
    // No record that answers exactly is on the hinted line: the hint decides nothing,
    // and the stronger rule still wins over a record of the hinted line.
    assert_eq!(pick("Glen Park", "glen park", Some(Line::Unassigned)), Some(1));
    assert_eq!(pick("Glen Park", "glen park", Some(Line::L)), Some(1));
    assert_eq!(pick("glen park", "glen park", Some(Line::Unassigned)), Some(2));
    assert_eq!(pick("park", "park", Some(Line::Unassigned)), Some(3));
    assert_eq!(pick("park", "park", Some(Line::M)), Some(0));
    assert_eq!(pick("park", "park", Some(Line::L)), Some(1));
    assert_eq!(pick("Richmond", "richmond", Some(Line::M)), None);
    let on = |line: Option<Line>| {
        smallest_on_line(MatchRule::Partial, &table, &folded, &chars("park"), &chars("park"), line)
    };
    assert_eq!(on(None), Some(1));
    assert_eq!(on(Some(Line::Unassigned)), Some(3));
    assert_eq!(on(Some(Line::M)), Some(0));
    assert_eq!(on(Some(Line::L)), None);
}

#[test]
fn first_of_equal_codes_is_selected() {
    let table: [StationRecord; 3] =
        [("B", "Same", Line::A), ("A", "Same", Line::L), ("A", "Same", Line::M)];
    let folded = vec![chars("same"), chars("same"), chars("same")];
    let query = chars("Same");
    assert_eq!(select_record(&table, &folded, &query, &chars("same"), None), Some(1));
    assert_eq!(select_record(&table, &folded, &query, &chars("same"), Some(Line::M)), Some(2));
    assert_eq!(select_record(&table, &folded, &query, &chars("same"), Some(Line::A)), Some(0));
}

#[test]
fn names_resolve_with_a_line_hint() {
    let with = |name: &str, line: Line| resolve_name_to_code_on_line(&STATIONS, name, Some(line));
    assert_eq!(with("Embarcadero (SF)", Line::M), Some("M10".to_string()));
    assert_eq!(with("Embarcadero (SF)", Line::A), Some("A10".to_string()));
    assert_eq!(with("Embarcadero (SF)", Line::Unassigned), Some("EMBR".to_string()));
    assert_eq!(with("Embarcadero (SF)", Line::L), Some("A10".to_string()));
    assert_eq!(with("montgomery st. (sf)", Line::M), Some("M16".to_string()));
    assert_eq!(with("oakland", Line::L), Some("L10".to_string()));
    assert_eq!(with("oakland", Line::M), Some("12TH".to_string()));
    assert_eq!(with("Walnut Creek", Line::M), Some("WCRK".to_string()));
    assert_eq!(with("Atlantis", Line::A), None);
    assert_eq!(
        resolve_name_to_code_on_line(&STATIONS, "Embarcadero (SF)", None),
        Some("A10".to_string())
    );
    assert_eq!(
        resolve_name_to_code_on_line(&ALTERNATE_STATIONS, "Daly City", Some(Line::M)),
        Some("M80".to_string())
    );
}
