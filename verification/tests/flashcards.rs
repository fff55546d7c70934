use trmnl_plugin_server::flashcard::{
    after_initialize, csv_row_for_day, flashcard_from_row, load_flashcard, on_flashcard_request,
    row_index, select_flashcard, FlashcardCache, FlashcardError, FlashcardReply, FlashcardStep,
    VietLangResponse, FLASHCARD_COLUMNS, REFRESH_PERIOD_SECONDS, ROW_CYCLE,
};

fn card(word: &str) -> VietLangResponse {
    VietLangResponse {
        word: word.to_string(),
        word_translated: format!("{} (en)", word),
        sentence: format!("{} ...", word),
        sentence_translated: format!("{} ... (en)", word),
    }
}

fn row(cells: [Option<&str>; 4]) -> Vec<Option<String>> {
    cells.iter().map(|c| c.map(|s| s.to_string())).collect()
}

const TABLE: &str = "\
Number,Vietnamese,English,Vietnamese_Sentence,English_Sentence
1,xin chào,hello,Xin chào bạn,Hello friend
2,cảm ơn,thank you,\"Cảm ơn, bạn\",\"Thank you, friend\"
3,nước,water,Tôi uống nước,I drink water
";

#[test]
fn day_of_year_gives_the_row_number() {
    assert_eq!(csv_row_for_day(1), 1);
    assert_eq!(csv_row_for_day(2), 2);
    assert_eq!(csv_row_for_day(365), 365);
    assert_eq!(csv_row_for_day(366), 366);
    assert_eq!(csv_row_for_day(1000), 1000);
    assert_eq!(csv_row_for_day(1001), 1);
    assert_eq!(csv_row_for_day(u32::MAX), (u32::MAX - 1) % 1000 + 1);
    assert_eq!(ROW_CYCLE, 1000);
    assert_eq!(REFRESH_PERIOD_SECONDS, 24 * 60 * 60);
}

#[test]
fn row_numbers_wrap_around_the_table() {
    assert_eq!(row_index(1, 3), 0);
    assert_eq!(row_index(3, 3), 2);
    assert_eq!(row_index(4, 3), 0);
    assert_eq!(row_index(366, 100), 65);
    assert_eq!(row_index(1, 1), 0);
    assert_eq!(row_index(1000, 1), 0);
    assert_eq!(row_index(usize::MAX, 10), (usize::MAX - 1) % 10);
}

#[test]
fn flashcard_is_made_from_the_four_columns() {
    let made = flashcard_from_row(&row([Some("a"), Some("b"), Some("c"), Some("d")]));
    assert_eq!(made.word, "a");
    assert_eq!(made.word_translated, "b");
    assert_eq!(made.sentence, "c");
    assert_eq!(made.sentence_translated, "d");
}

#[test]
fn missing_cells_read_as_empty() {
    let made = flashcard_from_row(&row([None, Some("b"), None, Some("d")]));
    assert_eq!(made.word, "");
    assert_eq!(made.word_translated, "b");
    assert_eq!(made.sentence, "");
    assert_eq!(made.sentence_translated, "d");
    let short = flashcard_from_row(&vec![Some("only".to_string())]);
    assert_eq!(short.word, "only");
    assert_eq!(short.word_translated, "");
    assert_eq!(short.sentence_translated, "");
    let none = flashcard_from_row(&vec![]);
    assert_eq!(none.word, "");
}

#[test]
fn flashcard_is_selected_by_wrapped_row_number() {
    let rows = vec![
        row([Some("one"), None, None, None]),
        row([Some("two"), None, None, None]),
        row([Some("three"), None, None, None]),
    ];
    assert_eq!(select_flashcard(&rows, 1).expect("a card").word, "one");
    assert_eq!(select_flashcard(&rows, 3).expect("a card").word, "three");
    assert_eq!(select_flashcard(&rows, 4).expect("a card").word, "one");
    assert_eq!(select_flashcard(&rows, 365).expect("a card").word, "two");
}

#[test]
fn table_without_rows_has_no_flashcard() {
    assert!(matches!(select_flashcard(&vec![], 1), Err(FlashcardError::NoData)));
    assert!(matches!(select_flashcard(&vec![], 77), Err(FlashcardError::NoData)));
    let only_header = "Vietnamese,English,Vietnamese_Sentence,English_Sentence\n";
    assert!(matches!(load_flashcard(only_header.as_bytes(), 1), Err(FlashcardError::NoData)));
    assert!(matches!(load_flashcard(b"", 1), Err(FlashcardError::NoData)));
}

#[test]
fn flashcard_of_a_day_is_read_from_the_table() {
    let first = load_flashcard(TABLE.as_bytes(), 1).expect("a card");
    assert_eq!(first.word, "xin chào");
    assert_eq!(first.word_translated, "hello");
    assert_eq!(first.sentence, "Xin chào bạn");
    assert_eq!(first.sentence_translated, "Hello friend");
    let second = load_flashcard(TABLE.as_bytes(), 2).expect("a card");
    assert_eq!(second.word, "cảm ơn");
    assert_eq!(second.sentence, "Cảm ơn, bạn");
    assert_eq!(second.sentence_translated, "Thank you, friend");
    let wrapped = load_flashcard(TABLE.as_bytes(), 4).expect("a card");
    assert_eq!(wrapped.word, "xin chào");
    let last_day = load_flashcard(TABLE.as_bytes(), 366).expect("a card");
    assert_eq!(last_day.word, "nước");
}

#[test]
fn columns_are_found_by_their_headers() {
    assert_eq!(
        FLASHCARD_COLUMNS,
        ["Vietnamese", "English", "Vietnamese_Sentence", "English_Sentence"]
    );
    let reordered = "English,Vietnamese\nhello,xin chào\n";
    let made = load_flashcard(reordered.as_bytes(), 1).expect("a card");
    assert_eq!(made.word, "xin chào");
    assert_eq!(made.word_translated, "hello");
    assert_eq!(made.sentence, "");
    assert_eq!(made.sentence_translated, "");
}

#[test]
fn unreadable_table_has_no_flashcard() {
    let ragged = "Vietnamese,English\nxin chào,hello\ncảm ơn\n";
    assert!(matches!(load_flashcard(ragged.as_bytes(), 1), Err(FlashcardError::Unreadable)));
    let not_text: [u8; 14] = *b"Vietnamese\n\xff\xfe\n";
    assert!(matches!(load_flashcard(&not_text, 1), Err(FlashcardError::Unreadable)));
}

#[test]
fn cache_starts_empty_and_serves_what_was_stored() {
    let mut cache = FlashcardCache::new();
    assert!(cache.get_current().is_none());
    cache.store(card("một"));
    let held = cache.get_current().expect("a card");
    assert_eq!(held.word, "một");
    assert_eq!(held.word_translated, "một (en)");
    assert_eq!(held.sentence, "một ...");
    assert_eq!(held.sentence_translated, "một ... (en)");
    cache.store(card("hai"));
    assert_eq!(cache.get_current().expect("a card").word, "hai");
    assert_eq!(cache.get_current().expect("a card").word, "hai");
}

#[test]
fn cached_flashcard_is_sent_as_it_is() {
    match on_flashcard_request(Some(card("ba"))) {
        FlashcardStep::Reply(FlashcardReply::Card(sent)) => assert_eq!(sent.word, "ba"),
        other => panic!("not a card: {:?}", other),
    }
}

#[test]
fn empty_cache_is_filled_on_demand() {
    assert!(matches!(on_flashcard_request(None), FlashcardStep::Initialize));
    match after_initialize(true, Some(card("bốn"))) {
        FlashcardReply::Card(sent) => assert_eq!(sent.sentence, "bốn ..."),
        other => panic!("not a card: {:?}", other),
    }
}

#[test]
fn failures_to_fill_the_cache_are_reported() {
    match after_initialize(true, None) {
        FlashcardReply::Failure { status, error } => {
            assert_eq!(status, 500);
            assert_eq!(error, "Failed to load Vietnamese language data");
        },
        other => panic!("not a failure: {:?}", other),
    }
    for cached in [None, Some(card("năm"))] {
        match after_initialize(false, cached) {
            FlashcardReply::Failure { status, error } => {
                assert_eq!(status, 500);
                assert_eq!(error, "Vietnamese language data not available");
            },
            other => panic!("not a failure: {:?}", other),
        }
    }
}
