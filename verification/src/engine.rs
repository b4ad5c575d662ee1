//! The calls into the `sqlite` crate, and the conversion of the bytes that it
//! hands out.
//!
//! Nothing here is proved. Each function makes one call and states only what
//! the source or the documentation of the callee shows of it for every
//! database; what a statement does to the stored rows is decided by the
//! database engine and is stated nowhere.

use vstd::prelude::*;
use vstd::utf8::{decode_utf8, valid_utf8};
use crate::command::prepared_by_library;

verus! {

#[verifier::external_type_specification]
#[verifier::external_body]
pub struct ExConnection(sqlite::Connection);

#[verifier::external_type_specification]
#[verifier::external_body]
pub struct ExStatement<'l>(sqlite::Statement<'l>);

#[verifier::external_type_specification]
#[verifier::external_body]
pub struct ExError(sqlite::Error);

/// Where a prepared statement stands after it was advanced.
#[derive(Clone, Copy, Debug, PartialEq, Eq, Structural)]
pub enum Step {
    /// A row is available for reading.
    Row,
    /// The statement has been evaluated entirely.
    Done,
}

/// The longest text, in bytes, that can be bound to a parameter: the length is
/// handed to the engine as a signed 32-bit number.
pub const MAX_BOUND_BYTES: usize = 0x7fff_ffff;

/// True when `text`, encoded as UTF-8, is short enough to be bound to a
/// parameter.
pub open spec fn bindable(text: Seq<char>) -> bool {
    vstd::utf8::encode_utf8(text).len() <= MAX_BOUND_BYTES
}

/// `sqlite::Connection::open`: opens the database at `location` for reading
/// and writing and creates it if it is missing. A location that holds a NUL
/// character is refused before the engine is asked.
#[verifier::external_body]
pub(crate) fn open_connection(location: &str) -> (opened: Result<
    sqlite::Connection,
    sqlite::Error,
>)
    ensures
        location@.contains('\0') ==> opened is Err,
{
    sqlite::Connection::open(location)
}

/// `sqlite::Connection::execute`: runs the statements in `text` and drops any
/// rows they produce.
#[verifier::external_body]
pub(crate) fn execute(connection: &sqlite::Connection, text: &str) -> (done: Result<
    (),
    sqlite::Error,
>) {
    connection.execute(text)
}

/// `sqlite::Connection::prepare`: compiles the first statement in `text`.
/// Only the library's own statements are admitted: the crate takes the names
/// of the result columns for valid Unicode, and these statements have no
/// result column, or give each the name that their text holds.
#[verifier::external_body]
pub(crate) fn prepare<'c>(connection: &'c sqlite::Connection, text: &str) -> (prepared: Result<
    sqlite::Statement<'c>,
    sqlite::Error,
>)
    requires
        prepared_by_library(text@),
{
    connection.prepare(text)
}

/// `sqlite::Statement::bind` with an index and a text: binds `value` to the
/// parameter at `index`, where the first parameter has index 1.
#[verifier::external_body]
pub(crate) fn bind_text(
    statement: &mut sqlite::Statement<'_>,
    index: usize,
    value: &str,
) -> (bound: Result<(), sqlite::Error>)
    requires
        bindable(value@),
{
    statement.bind((index, value))
}

/// `sqlite::Statement::next`: evaluates the statement up to its next row or to
/// its end.
#[verifier::external_body]
pub(crate) fn advance(statement: &mut sqlite::Statement<'_>) -> (step: Result<
    Step,
    sqlite::Error,
>) {
    statement.next().map(|state| match state {
        sqlite::State::Row => Step::Row,
        sqlite::State::Done => Step::Done,
    })
}

/// `sqlite::Statement::read` of an optional `Vec<u8>` by column name: the
/// bytes of the named column in the current row, all of them, or `None` where
/// the column holds NULL.
#[verifier::external_body]
pub(crate) fn read_bytes(statement: &sqlite::Statement<'_>, column: &str) -> (value: Result<
    Option<Vec<u8>>,
    sqlite::Error,
>) {
    statement.read::<Option<Vec<u8>>, _>(column)
}

/// `String::from_utf8`: the text whose UTF-8 encoding is `bytes`, and `None`
/// exactly where `bytes` are not valid UTF-8.
#[verifier::external_body]
pub(crate) fn text_of_bytes(bytes: Vec<u8>) -> (text: Option<String>)
    ensures
        text is Some <==> valid_utf8(bytes@),
        text matches Some(decoded) ==> decoded@ == decode_utf8(bytes@),
{
    String::from_utf8(bytes).ok()
}

} // verus!
