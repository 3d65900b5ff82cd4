//! Rows of input data as JSON objects, and the calls into `serde_json` that
//! read and write them.

use vstd::prelude::*;
use crate::errors::AppError;

verus! {

/// `serde_json::Value`, any JSON value. The library carries such values
/// through and never looks inside.
#[verifier::external_type_specification]
#[verifier::external_body]
pub struct ExValue(serde_json::Value);

/// `serde_json::Map`, a JSON object. Of its contents the library reads the
/// keys, through [`field_names`].
#[verifier::external_type_specification]
#[verifier::external_body]
#[verifier::reject_recursive_types(K)]
#[verifier::reject_recursive_types(V)]
pub struct ExMap<K, V>(serde_json::Map<K, V>);

/// `serde_json::Error`, what the parser and the serializer fail with.
#[verifier::external_type_specification]
#[verifier::external_body]
pub struct ExError(serde_json::Error);

/// One row of the input table: a JSON object from field name to value.
pub type Row = serde_json::Map<String, serde_json::Value>;

/// The field names of a row, in the order in which the row hands them out.
pub uninterp spec fn field_names(row: Row) -> Seq<Seq<char>>;

/// The JSON text of a table of rows, or `None` where the serializer fails.
pub uninterp spec fn json_text(rows: Seq<Row>) -> Option<Seq<char>>;

/// The characters of each string of a sequence.
pub open spec fn texts(strings: Seq<String>) -> Seq<Seq<char>> {
    strings.map_values(|s: String| s@)
}

/// `serde_json::Map::keys`, each key cloned: the field names of the row in
/// the order of the map's iterator.
#[verifier::external_body]
pub(crate) fn row_keys(row: &Row) -> (keys: Vec<String>)
    ensures
        texts(keys@) == field_names(*row),
{
    row.keys().cloned().collect()
}

/// `serde_json::to_string` on a table of rows. Its outcome depends on the
/// rows alone: the text on success, and whether it fails.
#[verifier::external_body]
pub(crate) fn rows_to_json(rows: &Vec<Row>) -> (r: Result<String, serde_json::Error>)
    ensures
        match r {
            Ok(text) => json_text(rows@) == Some(text@),
            Err(_) => json_text(rows@) is None,
        },
{
    serde_json::to_string(rows)
}

/// The rows that a text spells as a JSON array of objects, or `None` where
/// the text is no such array.
pub uninterp spec fn parsed_rows(text: Seq<char>) -> Option<Seq<Row>>;

/// `serde_json::from_str`, asked for a vector of rows. Its outcome depends
/// on the text alone: the rows on success, and whether it fails.
#[verifier::external_body]
pub(crate) fn rows_from_json(text: &str) -> (r: Result<Vec<Row>, serde_json::Error>)
    ensures
        match r {
            Ok(rows) => parsed_rows(text@) == Some(rows@),
            Err(_) => parsed_rows(text@) is None,
        },
{
    serde_json::from_str(text)
}

/// The input data from what the parser made of their text: its rows, or
/// its error as the failure that blames the input data.
pub fn input_data_from(parsed: Result<Vec<Row>, serde_json::Error>) -> (r: Result<
    Vec<Row>,
    AppError,
>)
    ensures
        match parsed {
            Ok(rows) => r == Ok::<Vec<Row>, AppError>(rows),
            Err(cause) => r == Err::<Vec<Row>, AppError>(AppError::InputDataInvalid(cause)),
        },
{
    match parsed {
        Ok(rows) => Ok(rows),
        Err(cause) => Err(AppError::InputDataInvalid(cause)),
    }
}

/// Reads the input data: a JSON array of objects, one object for each row.
/// Any other text fails and blames the input data.
pub fn parse_input_data(text: &str) -> (r: Result<Vec<Row>, AppError>)
    ensures
        match parsed_rows(text@) {
            Some(rows) => r matches Ok(data) && data@ == rows,
            None => r matches Err(AppError::InputDataInvalid(_)),
        },
{
    input_data_from(rows_from_json(text))
}

} // verus!
