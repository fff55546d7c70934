use trmnl_plugin_server::assembler::{
    assemble_response, collect_train_lines, line_for_update, select_response, slot, MAX_LINES,
};
use trmnl_plugin_server::feed::{FeedEntity, FeedMessage, StopTimeEvent, StopTimeUpdate, TripUpdate};

fn update(stop_id: Option<&str>, time: Option<i64>, delay: Option<i32>) -> StopTimeUpdate {
    StopTimeUpdate {
        stop_id: stop_id.map(|s| s.to_string()),
        arrival: Some(StopTimeEvent { time, delay }),
    }
}

fn trip(updates: Vec<StopTimeUpdate>) -> FeedEntity {
    FeedEntity { trip_update: Some(TripUpdate { stop_time_update: updates }) }
}

fn numbered(n: usize) -> Vec<StopTimeUpdate> {
    (0..n).map(|i| update(Some(&format!("S{}", i)), None, None)).collect()
}

#[test]
fn fifty_updates_yield_ten_lines_and_four_slots() {
    let feed = FeedMessage { entity: vec![trip(numbered(50))] };
    let lines = collect_train_lines(&feed);
    assert_eq!(lines.len(), 10);
    for (i, line) in lines.iter().enumerate() {
        assert_eq!(line, &format!("S{} - Time unknown", i));
    }
    let response = assemble_response(&feed);
    assert_eq!(response.outbound_train, "S0 - Time unknown");
    assert_eq!(response.inbound_train_0, "S1 - Time unknown");
    assert_eq!(response.inbound_train_1, "S2 - Time unknown");
    assert_eq!(response.inbound_train_2, "S3 - Time unknown");
}

#[test]
fn fifty_updates_over_many_trips_yield_ten_lines() {
    let mut entities = Vec::new();
    let all = numbered(50);
    for chunk in all.chunks(3) {
        entities.push(trip(chunk.to_vec()));
        entities.push(FeedEntity { trip_update: None });
    }
    let feed = FeedMessage { entity: entities };
    let lines = collect_train_lines(&feed);
    assert_eq!(lines.len(), MAX_LINES);
    assert_eq!(lines[9], "S9 - Time unknown");
}

#[test]
fn two_updates_fill_two_slots() {
    let feed = FeedMessage {
        entity: vec![trip(vec![
            update(Some("A10-1"), Some(1431648000 + 3600), Some(0)),
            update(Some("WCRK"), Some(1431648000 + 7200 + 60), Some(5)),
        ])],
    };
    let response = assemble_response(&feed);
    assert_eq!(response.outbound_train, "Embarcadero (SF) - Arrives at 01:00 (on time)");
    assert_eq!(response.inbound_train_0, "Walnut Creek - Arrives at 02:01 (5s delay)");
    assert_eq!(response.inbound_train_1, "No data available");
    assert_eq!(response.inbound_train_2, "No data available");
    assert_eq!(collect_train_lines(&feed).len(), 2);
}

#[test]
fn empty_feed_fills_no_slot() {
    let feed = FeedMessage { entity: vec![] };
    assert!(collect_train_lines(&feed).is_empty());
    let response = assemble_response(&feed);
    assert_eq!(response.outbound_train, "No data available");
    assert_eq!(response.inbound_train_0, "No data available");
    assert_eq!(response.inbound_train_1, "No data available");
    assert_eq!(response.inbound_train_2, "No data available");
}

#[test]
fn entities_without_trip_update_are_passed_over() {
    let feed = FeedMessage {
        entity: vec![
            FeedEntity { trip_update: None },
            trip(vec![]),
            FeedEntity { trip_update: None },
            trip(vec![update(Some("M16-2"), None, Some(-4))]),
        ],
    };
    let lines = collect_train_lines(&feed);
    assert_eq!(lines, vec!["Montgomery St. (SF) - Time unknown (on time)".to_string()]);
}

#[test]
fn updates_without_stop_identifier_are_passed_over() {
    let feed = FeedMessage {
        entity: vec![
            trip(vec![update(None, Some(0), Some(1)), update(Some("DALY"), None, None)]),
            trip(vec![
                update(None, None, None),
                StopTimeUpdate { stop_id: Some("UNKNOWN-7".to_string()), arrival: None },
                update(None, None, None),
            ]),
        ],
    };
    let lines = collect_train_lines(&feed);
    assert_eq!(
        lines,
        vec![
            "Daly City - Time unknown".to_string(),
            "UNKNOWN-7 - No arrival info".to_string()
        ]
    );
}

#[test]
fn updates_without_stop_identifier_do_not_count_toward_the_cap() {
    let mut updates = Vec::new();
    for i in 0..12 {
        updates.push(update(None, Some(i), None));
        updates.push(update(Some(&format!("S{}", i)), None, None));
    }
    let feed = FeedMessage { entity: vec![trip(updates)] };
    let lines = collect_train_lines(&feed);
    assert_eq!(lines.len(), 10);
    assert_eq!(lines[0], "S0 - Time unknown");
    assert_eq!(lines[9], "S9 - Time unknown");
}

#[test]
fn exactly_ten_and_eleven_updates() {
    let ten = FeedMessage { entity: vec![trip(numbered(4)), trip(numbered(6))] };
    assert_eq!(collect_train_lines(&ten).len(), 10);
    let eleven = FeedMessage { entity: vec![trip(numbered(4)), trip(numbered(7))] };
    let lines = collect_train_lines(&eleven);
    assert_eq!(lines.len(), 10);
    assert_eq!(lines[3], "S3 - Time unknown");
    assert_eq!(lines[4], "S0 - Time unknown");
    assert_eq!(lines[9], "S5 - Time unknown");
    let nine = FeedMessage { entity: vec![trip(numbered(9))] };
    assert_eq!(collect_train_lines(&nine).len(), 9);
}

#[test]
fn lines_keep_document_order_across_trips() {
    let feed = FeedMessage {
        entity: vec![
            trip(vec![update(Some("C"), None, None), update(Some("A"), None, None)]),
            trip(vec![update(Some("B"), None, None)]),
        ],
    };
    let response = assemble_response(&feed);
    assert_eq!(response.outbound_train, "C - Time unknown");
    assert_eq!(response.inbound_train_0, "A - Time unknown");
    assert_eq!(response.inbound_train_1, "B - Time unknown");
    assert_eq!(response.inbound_train_2, "No data available");
}

#[test]
fn slots_are_filled_by_position() {
    let lines = vec!["one".to_string(), "two".to_string(), "three".to_string()];
    assert_eq!(slot(&lines, 0), "one");
    assert_eq!(slot(&lines, 2), "three");
    assert_eq!(slot(&lines, 3), "No data available");
    assert_eq!(slot(&lines, usize::MAX), "No data available");
    let response = select_response(&lines);
    assert_eq!(response.outbound_train, "one");
    assert_eq!(response.inbound_train_0, "two");
    assert_eq!(response.inbound_train_1, "three");
    assert_eq!(response.inbound_train_2, "No data available");
    let five: Vec<String> = (0..5).map(|i| i.to_string()).collect();
    let response = select_response(&five);
    assert_eq!(response.outbound_train, "0");
    assert_eq!(response.inbound_train_2, "3");
}

#[test]
fn line_of_one_update() {
    let u = update(Some("ignored"), Some(1431648000 + 600), Some(90));
    assert_eq!(line_for_update("POWL-1", &u), "Powell St. (SF) - Arrives at 00:10 (90s delay)");
    assert_eq!(line_for_update("nowhere", &u), "nowhere - Arrives at 00:10 (90s delay)");
}
