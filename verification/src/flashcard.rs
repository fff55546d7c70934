//! The vocabulary flashcard of the day: which row of the table a day shows, the
//! record made from that row, and the cache that the record is served from.

use vstd::prelude::*;

verus! {

/// The flashcard that is served: a word and a sentence, each with its
/// rendering in English.
#[derive(Clone, Debug)]
pub struct VietLangResponse {
    pub word: String,
    pub word_translated: String,
    pub sentence: String,
    pub sentence_translated: String,
}

/// Why no flashcard could be made.
#[derive(Clone, Copy, Debug, PartialEq, Eq, Structural)]
pub enum FlashcardError {
    /// The table is not a readable CSV document.
    Unreadable,
    /// The table holds no row.
    NoData,
}

/// The number of row numbers that the days of the year cycle through.
pub const ROW_CYCLE: u32 = 1000;

/// The seconds between two refreshes of the cache: one day.
pub const REFRESH_PERIOD_SECONDS: u64 = 86400;

/// The columns that a flashcard is made from: the word, its rendering, the
/// sentence, its rendering.
pub const FLASHCARD_COLUMNS: [&'static str; 4] = [
    "Vietnamese",
    "English",
    "Vietnamese_Sentence",
    "English_Sentence",
];

/// The row number shown on a day of the year. Days are counted from 1, and so
/// are row numbers.
pub open spec fn row_number_for_day(day_of_year: int) -> int {
    (day_of_year - 1) % (ROW_CYCLE as int) + 1
}

/// The position of a row number in a table of `n_rows` rows: row numbers past
/// the end of the table start again at its first row.
pub open spec fn wrapped_row_index(row_number: int, n_rows: int) -> int {
    (row_number - 1) % n_rows
}

/// The text of a cell; a cell that is missing reads as the empty text.
pub open spec fn cell_text(row: Seq<Option<String>>, column: int) -> Seq<char> {
    if 0 <= column < row.len() {
        match row[column] {
            Some(text) => text@,
            None => Seq::empty(),
        }
    } else {
        Seq::empty()
    }
}

/// `card` is the flashcard made from `row`, whose cells stand in the order of
/// `FLASHCARD_COLUMNS`.
pub open spec fn is_card_of_row(card: VietLangResponse, row: Seq<Option<String>>) -> bool {
    &&& card.word@ == cell_text(row, 0)
    &&& card.word_translated@ == cell_text(row, 1)
    &&& card.sentence@ == cell_text(row, 2)
    &&& card.sentence_translated@ == cell_text(row, 3)
}

/// Two flashcards with the same texts.
pub open spec fn same_card(a: VietLangResponse, b: VietLangResponse) -> bool {
    &&& a.word@ == b.word@
    &&& a.word_translated@ == b.word_translated@
    &&& a.sentence@ == b.sentence@
    &&& a.sentence_translated@ == b.sentence_translated@
}

/// The texts of one row of cells.
pub open spec fn row_texts(row: Seq<Option<String>>) -> Seq<Option<Seq<char>>> {
    Seq::new(
        row.len(),
        |i: int|
            match row[i] {
                Some(text) => Some(text@),
                None => None,
            },
    )
}

/// The texts of a table of cells.
pub open spec fn table_texts(rows: Seq<Vec<Option<String>>>) -> Seq<Seq<Option<Seq<char>>>> {
    Seq::new(rows.len(), |i: int| row_texts(rows[i]@))
}

/// The texts of a list of column names.
pub open spec fn column_names(columns: Seq<&'static str>) -> Seq<Seq<char>> {
    Seq::new(columns.len(), |i: int| columns[i]@)
}

/// What the csv crate reads from a document for a list of columns: for each
/// record after the header row, the field under each of the columns, where the
/// header row names that column. `None` where the crate reports an error.
pub uninterp spec fn csv_columns(content: Seq<u8>, columns: Seq<Seq<char>>) -> Option<
    Seq<Seq<Option<Seq<char>>>>,
>;

/// The error type of the csv crate, `csv::Error`. Nothing is claimed of what
/// it holds.
#[verifier::external_type_specification]
#[verifier::external_body]
pub struct ExCsvError(csv::Error);

/// Reads a CSV document with the csv crate: `Reader::from_reader`, then
/// `Reader::deserialize` of every record into a map from header to field, from
/// which the fields under `columns` are taken. The contract gives what was read
/// the name `csv_columns` of the document and the columns, and says no more of
/// it than that an error goes with `None`.
#[verifier::external_body]
fn read_csv_columns(content: &[u8], columns: &[&'static str]) -> (r: Result<
    Vec<Vec<Option<String>>>,
    csv::Error,
>)
    ensures
        match r {
            Ok(rows) => csv_columns(content@, column_names(columns@)) == Some(table_texts(rows@)),
            Err(_) => csv_columns(content@, column_names(columns@)) is None,
        },
{
    let mut reader = csv::Reader::from_reader(content);
    let mut rows = Vec::new();
    for record in reader.deserialize::<std::collections::HashMap<String, String>>() {
        let fields = record?;
        rows.push(columns.iter().map(|column| fields.get(*column).cloned()).collect());
    }
    Ok(rows)
}

/// The row number shown on a day of the year.
pub fn csv_row_for_day(day_of_year: u32) -> (r: u32)
    requires
        day_of_year >= 1,
    ensures
        r == row_number_for_day(day_of_year as int),
        1 <= r <= ROW_CYCLE,
{
    (day_of_year - 1) % ROW_CYCLE + 1
}

/// The position of a row number in a table of `n_rows` rows.
pub fn row_index(row_number: usize, n_rows: usize) -> (r: usize)
    requires
        row_number >= 1,
        n_rows >= 1,
    ensures
        r == wrapped_row_index(row_number as int, n_rows as int),
        r < n_rows,
{
    (row_number - 1) % n_rows
}

/// The text of a cell of a row.
fn cell(row: &Vec<Option<String>>, column: usize) -> (r: String)
    ensures
        r@ == cell_text(row@, column as int),
{
    if column < row.len() {
        match &row[column] {
            Some(text) => text.clone(),
            None => String::new(),
        }
    } else {
        String::new()
    }
}

/// The flashcard made from a row whose cells stand in the order of
/// `FLASHCARD_COLUMNS`.
pub fn flashcard_from_row(row: &Vec<Option<String>>) -> (r: VietLangResponse)
    ensures
        is_card_of_row(r, row@),
{
    VietLangResponse {
        word: cell(row, 0),
        word_translated: cell(row, 1),
        sentence: cell(row, 2),
        sentence_translated: cell(row, 3),
    }
}

/// The flashcard with a row number, from the rows of a table: the row at the
/// wrapped position. A table without rows has none.
pub fn select_flashcard(rows: &Vec<Vec<Option<String>>>, row_number: usize) -> (r: Result<
    VietLangResponse,
    FlashcardError,
>)
    requires
        row_number >= 1,
    ensures
        match r {
            Ok(card) => rows.len() > 0 && is_card_of_row(
                card,
                rows@[wrapped_row_index(row_number as int, rows.len() as int)]@,
            ),
            Err(error) => rows.len() == 0 && error == FlashcardError::NoData,
        },
{
    if rows.len() == 0 {
        return Err(FlashcardError::NoData);
    }
    let index = row_index(row_number, rows.len());
    Ok(flashcard_from_row(&rows[index]))
}

/// What `load_flashcard` returns for what the csv crate read from the table.
pub open spec fn is_flashcard_of(
    read: Option<Seq<Seq<Option<Seq<char>>>>>,
    row_number: int,
    r: Result<VietLangResponse, FlashcardError>,
) -> bool {
    match read {
        None => r == Err::<VietLangResponse, FlashcardError>(FlashcardError::Unreadable),
        Some(rows) => if rows.len() == 0 {
            r == Err::<VietLangResponse, FlashcardError>(FlashcardError::NoData)
        } else {
            let row = rows[wrapped_row_index(row_number, rows.len() as int)];
            r matches Ok(card) && {
                &&& card.word@ == text_at(row, 0)
                &&& card.word_translated@ == text_at(row, 1)
                &&& card.sentence@ == text_at(row, 2)
                &&& card.sentence_translated@ == text_at(row, 3)
            }
        },
    }
}

/// The text at a position of a row of texts; empty where there is none.
pub open spec fn text_at(row: Seq<Option<Seq<char>>>, column: int) -> Seq<char> {
    if 0 <= column < row.len() {
        match row[column] {
            Some(text) => text,
            None => Seq::empty(),
        }
    } else {
        Seq::empty()
    }
}

/// The flashcard with a row number, from the bytes of the table: the table is
/// read as CSV, and the row at the wrapped position gives the card.
pub fn load_flashcard_row(content: &[u8], row_number: usize) -> (r: Result<
    VietLangResponse,
    FlashcardError,
>)
    requires
        row_number >= 1,
    ensures
        is_flashcard_of(
            csv_columns(content@, column_names(FLASHCARD_COLUMNS@)),
            row_number as int,
            r,
        ),
{
    match read_csv_columns(content, &FLASHCARD_COLUMNS) {
        Ok(rows) => {
            let r = select_flashcard(&rows, row_number);
            proof {
                if rows.len() > 0 {
                    let i = wrapped_row_index(row_number as int, rows.len() as int);
                    let row = rows@[i]@;
                    assert(table_texts(rows@)[i] == row_texts(row));
                    assert(forall|k: int| text_at(row_texts(row), k) == cell_text(row, k));
                }
            }
            r
        },
        Err(_) => Err(FlashcardError::Unreadable),
    }
}

/// The flashcard of a day of the year, from the bytes of the table: the day
/// gives the row number, the row gives the card.
pub fn load_flashcard(content: &[u8], day_of_year: u32) -> (r: Result<
    VietLangResponse,
    FlashcardError,
>)
    requires
        day_of_year >= 1,
    ensures
        is_flashcard_of(
            csv_columns(content@, column_names(FLASHCARD_COLUMNS@)),
            row_number_for_day(day_of_year as int),
            r,
        ),
{
    let row_number = csv_row_for_day(day_of_year);
    load_flashcard_row(content, row_number as usize)
}

/// The cache that the flashcard is served from: empty when the process starts,
/// filled by a refresh, and read by every request.
pub struct FlashcardCache {
    current: Option<VietLangResponse>,
}

/// The reply to a request for the flashcard.
#[derive(Clone, Debug)]
pub enum FlashcardReply {
    /// Status 200 with the flashcard.
    Card(VietLangResponse),
    /// A failure status with an error message.
    Failure { status: u16, error: String },
}

/// What is done for a request for the flashcard.
#[derive(Clone, Debug)]
pub enum FlashcardStep {
    /// Send this reply.
    Reply(FlashcardReply),
    /// The cache is empty: fill it, then look again.
    Initialize,
}

/// `reply` is the failure with this status and this message.
pub open spec fn is_failure(reply: FlashcardReply, status: u16, message: Seq<char>) -> bool {
    reply matches FlashcardReply::Failure { status: s, error } && s == status && error@ == message
}

impl FlashcardCache {
    /// What the cache holds.
    pub closed spec fn held(&self) -> Option<VietLangResponse> {
        self.current
    }

    /// An empty cache.
    pub fn new() -> (r: Self)
        ensures
            r.held() is None,
    {
        FlashcardCache { current: None }
    }

    /// A copy of the flashcard that the cache holds, if it holds one.
    pub fn get_current(&self) -> (r: Option<VietLangResponse>)
        ensures
            r is Some <==> self.held() is Some,
            r matches Some(card) ==> same_card(card, self.held()->0),
    {
        match &self.current {
            Some(card) => Some(
                VietLangResponse {
                    word: card.word.clone(),
                    word_translated: card.word_translated.clone(),
                    sentence: card.sentence.clone(),
                    sentence_translated: card.sentence_translated.clone(),
                },
            ),
            None => None,
        }
    }

    /// Puts a flashcard into the cache, in place of what it held.
    pub fn store(&mut self, card: VietLangResponse)
        ensures
            final(self).held() == Some(card),
    {
        self.current = Some(card);
    }
}

/// Decides what is done for a request, from what the cache held: a flashcard is
/// sent as it is; an empty cache is filled first.
pub fn on_flashcard_request(cached: Option<VietLangResponse>) -> (r: FlashcardStep)
    ensures
        match cached {
            Some(card) => r == FlashcardStep::Reply(FlashcardReply::Card(card)),
            None => r is Initialize,
        },
{
    match cached {
        Some(card) => FlashcardStep::Reply(FlashcardReply::Card(card)),
        None => FlashcardStep::Initialize,
    }
}

/// Decides the reply once the cache was filled on demand: the flashcard that it
/// now holds; a failure where filling succeeded and the cache is empty still;
/// another where filling failed.
pub fn after_initialize(filled: bool, cached: Option<VietLangResponse>) -> (r: FlashcardReply)
    ensures
        filled && cached is Some ==> r == FlashcardReply::Card(cached->0),
        filled && cached is None ==> is_failure(r, 500, "Failed to load Vietnamese language data"@),
        !filled ==> is_failure(r, 500, "Vietnamese language data not available"@),
{
    if filled {
        match cached {
            Some(card) => FlashcardReply::Card(card),
            None => FlashcardReply::Failure {
                status: 500,
                error: "Failed to load Vietnamese language data".to_owned(),
            },
        }
    } else {
        FlashcardReply::Failure {
            status: 500,
            error: "Vietnamese language data not available".to_owned(),
        }
    }
}

} // verus!
