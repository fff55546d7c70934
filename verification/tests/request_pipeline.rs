use trmnl_plugin_server::bart::{
    classify_fetch, next_action, BartIncomingRequest, FeedError, FetchOutcome, HandlerAction,
    HandlerEvent, HttpReply, ReplyBody, FEED_URL, STATUS_BAD_REQUEST, STATUS_OK,
    STATUS_SERVER_ERROR,
};
use trmnl_plugin_server::feed::{FeedEntity, FeedMessage, StopTimeEvent, StopTimeUpdate, TripUpdate};

fn request() -> BartIncomingRequest {
    BartIncomingRequest {
        direction: 1,
        station: "Walnut Creek".to_string(),
        line: "Yellow".to_string(),
        show_time_not_minutes: false,
    }
}

fn text_reply(action: HandlerAction) -> (u16, String) {
    match action {
        HandlerAction::Reply(HttpReply { status, body: ReplyBody::Text(text) }) => (status, text),
        other => panic!("not a text reply: {:?}", other),
    }
}

#[test]
fn valid_request_is_followed_by_one_fetch() {
    assert!(matches!(next_action(HandlerEvent::RequestParsed(Ok(request()))), HandlerAction::Fetch));
    assert_eq!(FEED_URL, "https://api.bart.gov/gtfsrt/tripupdate.aspx");
}

#[test]
fn request_without_station_is_a_bad_request() {
    let detail = "missing field `station`".to_string();
    let (status, text) = text_reply(next_action(HandlerEvent::RequestParsed(Err(detail))));
    assert_eq!(status, 400);
    assert_eq!(text, "Invalid request body: missing field `station`");
}

#[test]
fn refused_connection_is_reported_as_fetch_failure() {
    let outcome = FetchOutcome::ConnectFailed("connection refused".to_string());
    let (status, text) = text_reply(next_action(HandlerEvent::Fetched(outcome)));
    assert_eq!(status, 500);
    assert_eq!(text, "Failed to fetch BART data: connection refused");
    assert!(!text.contains("decode"));
}

#[test]
fn unreadable_body_is_reported_as_fetch_failure() {
    let outcome = FetchOutcome::ReadFailed("connection reset".to_string());
    let (status, text) = text_reply(next_action(HandlerEvent::Fetched(outcome)));
    assert_eq!(status, 500);
    assert_eq!(text, "Failed to fetch BART data: could not read the response: connection reset");
}

#[test]
fn failure_status_is_reported_as_fetch_failure() {
    for (code, name) in [(404u16, "404"), (500, "500"), (503, "503"), (301, "301"), (199, "199"), (300, "300"), (0, "0"), (65535, "65535")] {
        let outcome = FetchOutcome::Response { status: code, bytes: vec![1, 2, 3] };
        let (status, text) = text_reply(next_action(HandlerEvent::Fetched(outcome)));
        assert_eq!(status, 500);
        assert_eq!(text, format!("Failed to fetch BART data: HTTP status {}", name));
    }
}

#[test]
fn success_status_hands_the_body_to_the_decoder() {
    for code in [200u16, 204, 299] {
        let outcome = FetchOutcome::Response { status: code, bytes: vec![10, 20, 30] };
        match next_action(HandlerEvent::Fetched(outcome)) {
            HandlerAction::Decode(body) => assert_eq!(body, vec![10, 20, 30]),
            other => panic!("not a decode: {:?}", other),
        }
    }
    let empty = FetchOutcome::Response { status: 200, bytes: vec![] };
    assert_eq!(classify_fetch(empty).expect("a body"), Vec::<u8>::new());
}

#[test]
fn undecodable_bytes_are_reported_as_decode_failure() {
    let detail = "failed to decode Protobuf message: invalid wire type value: 7".to_string();
    let (status, text) = text_reply(next_action(HandlerEvent::Decoded(Err(detail))));
    assert_eq!(status, 500);
    assert_eq!(
        text,
        "Failed to decode protobuf: failed to decode Protobuf message: invalid wire type value: 7"
    );
}

#[test]
fn decoded_feed_is_answered_with_its_lines() {
    let feed = FeedMessage {
        entity: vec![FeedEntity {
            trip_update: Some(TripUpdate {
                stop_time_update: vec![StopTimeUpdate {
                    stop_id: Some("RICH-1".to_string()),
                    arrival: Some(StopTimeEvent { time: Some(1431648000 + 61), delay: None }),
                }],
            }),
        }],
    };
    match next_action(HandlerEvent::Decoded(Ok(feed))) {
        HandlerAction::Reply(HttpReply { status, body: ReplyBody::Trains(trains) }) => {
            assert_eq!(status, 200);
            assert_eq!(trains.outbound_train, "Richmond - Arrives at 00:01");
            assert_eq!(trains.inbound_train_0, "No data available");
            assert_eq!(trains.inbound_train_1, "No data available");
            assert_eq!(trains.inbound_train_2, "No data available");
        },
        other => panic!("not a reply with trains: {:?}", other),
    }
}

#[test]
fn empty_feed_is_no_failure() {
    match next_action(HandlerEvent::Decoded(Ok(FeedMessage { entity: vec![] }))) {
        HandlerAction::Reply(HttpReply { status, body: ReplyBody::Trains(trains) }) => {
            assert_eq!(status, STATUS_OK);
            assert_eq!(trains.outbound_train, "No data available");
            assert_eq!(trains.inbound_train_2, "No data available");
        },
        other => panic!("not a reply with trains: {:?}", other),
    }
}

#[test]
fn each_failure_has_its_status_and_message() {
    let validation = FeedError::RequestValidation("invalid type: string, expected i8".to_string());
    assert_eq!(validation.status_code(), STATUS_BAD_REQUEST);
    assert_eq!(validation.message(), "Invalid request body: invalid type: string, expected i8");
    let upstream = FeedError::UpstreamUnavailable("timed out".to_string());
    assert_eq!(upstream.status_code(), STATUS_SERVER_ERROR);
    assert_eq!(upstream.message(), "Failed to fetch BART data: timed out");
    let malformed = FeedError::MalformedFeed("".to_string());
    assert_eq!(malformed.status_code(), 500);
    assert_eq!(malformed.message(), "Failed to decode protobuf: ");
    let reply = malformed.into_reply();
    assert_eq!(reply.status, 500);
    assert!(matches!(reply.body, ReplyBody::Text(ref text) if text == "Failed to decode protobuf: "));
}

#[test]
fn fetch_outcomes_are_judged() {
    assert!(matches!(
        classify_fetch(FetchOutcome::Response { status: 200, bytes: vec![7] }),
        Ok(ref body) if body == &vec![7u8]
    ));
    assert!(matches!(
        classify_fetch(FetchOutcome::Response { status: 418, bytes: vec![7] }),
        Err(FeedError::UpstreamUnavailable(ref detail)) if detail == "HTTP status 418"
    ));
    assert!(matches!(
        classify_fetch(FetchOutcome::ConnectFailed("deadline passed".to_string())),
        Err(FeedError::UpstreamUnavailable(ref detail)) if detail == "deadline passed"
    ));
    assert!(matches!(
        classify_fetch(FetchOutcome::ReadFailed("eof".to_string())),
        Err(FeedError::UpstreamUnavailable(ref detail)) if detail == "could not read the response: eof"
    ));
}
