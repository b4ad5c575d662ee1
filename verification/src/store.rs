//! The record store: one table of executables in a SQLite database.

use vstd::prelude::*;
use vstd::utf8::{decode_utf8, encode_utf8, valid_utf8};
use crate::command::{Command, CREATE_TABLE, DELETE, INSERT, SELECT_ALL};
use crate::engine::{
    advance, bind_text, bindable, execute, open_connection, prepare, read_bytes, text_of_bytes, Step,
    MAX_BOUND_BYTES,
};
use crate::error::RegistryError;
use crate::record::Executable;

verus! {

/// A connection to the database that holds the table of executables.
pub struct Integration {
    db_conn: sqlite::Connection,
}

/// True when every text among `values` is short enough to be bound.
pub open spec fn all_bindable(values: Seq<Seq<char>>) -> bool {
    forall|i: int| 0 <= i < values.len() ==> bindable(#[trigger] values[i])
}

/// Reports what the engine answered: a success is kept, and an error of the
/// engine becomes the failure `kind`.
pub fn classify<T>(outcome: Result<T, sqlite::Error>, kind: RegistryError) -> (classified: Result<
    T,
    RegistryError,
>)
    ensures
        classified == match outcome {
            Ok(value) => Ok::<T, RegistryError>(value),
            Err(_) => Err::<T, RegistryError>(kind),
        },
{
    match outcome {
        Ok(value) => Ok(value),
        Err(_) => Err(kind),
    }
}

/// The text of a column whose bytes are `cell`, where `None` stands for a
/// NULL column: the text that the bytes encode in UTF-8. A NULL column and
/// bytes that are not valid UTF-8 have no text and fail the query.
pub open spec fn text_read(cell: Option<Seq<u8>>) -> Result<Seq<char>, RegistryError> {
    match cell {
        Some(bytes) => if valid_utf8(bytes) {
            Ok(decode_utf8(bytes))
        } else {
            Err(RegistryError::QueryFailure)
        },
        None => Err(RegistryError::QueryFailure),
    }
}

/// The bytes that were read of a column, as a mathematical value.
pub open spec fn bytes_read(cell: Option<Vec<u8>>) -> Option<Seq<u8>> {
    match cell {
        Some(bytes) => Some(bytes@),
        None => None,
    }
}

/// Turns the bytes that were read of a column into its text.
pub fn column_text(cell: Option<Vec<u8>>) -> (text: Result<String, RegistryError>)
    ensures
        match text {
            Ok(decoded) => text_read(bytes_read(cell)) == Ok::<Seq<char>, RegistryError>(decoded@),
            Err(failure) => text_read(bytes_read(cell)) == Err::<Seq<char>, RegistryError>(failure),
        },
{
    match cell {
        Some(bytes) => match text_of_bytes(bytes) {
            Some(decoded) => Ok(decoded),
            None => Err(RegistryError::QueryFailure),
        },
        None => Err(RegistryError::QueryFailure),
    }
}

/// A text that is stored as its UTF-8 bytes reads back as the same text,
/// whatever characters it holds, quotes and NUL characters among them.
pub proof fn stored_text_reads_back(text: Seq<char>)
    ensures
        text_read(Some(encode_utf8(text))) == Ok::<Seq<char>, RegistryError>(text),
{
    vstd::utf8::encode_utf8_valid_utf8(text);
    vstd::utf8::encode_utf8_decode_utf8(text);
}

impl Integration {
    /// Opens the database at `db_name`, creating the file if it is missing.
    ///
    /// The only failure is [`RegistryError::ConnectionFailure`]; it is certain
    /// when `db_name` holds a NUL character and otherwise up to the engine.
    pub fn new(db_name: String) -> (opened: Result<Integration, RegistryError>)
        ensures
            db_name@.contains('\0') ==> opened is Err,
            opened matches Err(failure) ==> failure == RegistryError::ConnectionFailure,
    {
        let connection = classify(open_connection(db_name.as_str()), RegistryError::ConnectionFailure)?;
        Ok(Integration { db_conn: connection })
    }

    /// Creates the table `executables` unless it exists already, with an
    /// integer primary key `id` and the text columns `name` and `path`.
    ///
    /// The only failure is [`RegistryError::SchemaFailure`].
    pub fn create_table(&self) -> (created: Result<(), RegistryError>)
        ensures
            created matches Err(failure) ==> failure == RegistryError::SchemaFailure,
    {
        classify(execute(&self.db_conn, CREATE_TABLE), RegistryError::SchemaFailure)
    }

    /// Inserts a record with the name and the path of `exe`; the database
    /// assigns the identifier, and the one in `exe` is not used.
    ///
    /// The only failure is [`RegistryError::QueryFailure`]; it is certain when
    /// the name or the path is too long to be bound.
    pub fn add_exe(&self, exe: Executable) -> (added: Result<(), RegistryError>)
        ensures
            !bindable(exe.name@) || !bindable(exe.path@) ==> added is Err,
            added matches Err(failure) ==> failure == RegistryError::QueryFailure,
    {
        let command = Command::insert(exe.name.as_str(), exe.path.as_str());
        proof {
            assert(command@.values[0] == exe.name@);
            assert(command@.values[1] == exe.path@);
        }
        self.perform(&command)
    }

    /// Deletes the record whose identifier is `id`; where there is none,
    /// nothing is deleted.
    ///
    /// The only failure is [`RegistryError::QueryFailure`]; it is certain when
    /// the identifier is too long to be bound.
    pub fn delete_exe(&self, id: String) -> (deleted: Result<(), RegistryError>)
        ensures
            !bindable(id@) ==> deleted is Err,
            deleted matches Err(failure) ==> failure == RegistryError::QueryFailure,
    {
        let command = Command::delete(id.as_str());
        proof {
            assert(command@.values[0] == id@);
        }
        self.perform(&command)
    }

    /// Retrieves every record of the table, in the order in which the
    /// database yields them. Each comes with the identifier it was given, and
    /// each text is read in its whole length.
    ///
    /// The only failure is [`RegistryError::QueryFailure`]: the query or a
    /// step of it failed, a column holds NULL or bytes that are not valid
    /// UTF-8, or there are more rows than a vector can hold.
    pub fn list_all(&self) -> (listed: Result<Vec<Executable>, RegistryError>)
        ensures
            listed matches Ok(records) ==> forall|i: int|
                0 <= i < records.len() ==> (#[trigger] records[i])@.listed(),
            listed matches Err(failure) ==> failure == RegistryError::QueryFailure,
    {
        let mut executables: Vec<Executable> = Vec::new();
        let mut statement = classify(prepare(&self.db_conn, SELECT_ALL), RegistryError::QueryFailure)?;
        while executables.len() < usize::MAX
            invariant
                forall|i: int| 0 <= i < executables.len() ==> (#[trigger] executables[i])@.listed(),
            decreases usize::MAX - executables.len(),
        {
            match classify(advance(&mut statement), RegistryError::QueryFailure)? {
                Step::Done => return Ok(executables),
                Step::Row => {
                    let id = column_text(
                        classify(read_bytes(&statement, "id"), RegistryError::QueryFailure)?,
                    )?;
                    let name = column_text(
                        classify(read_bytes(&statement, "name"), RegistryError::QueryFailure)?,
                    )?;
                    let path = column_text(
                        classify(read_bytes(&statement, "path"), RegistryError::QueryFailure)?,
                    )?;
                    executables.push(Executable::stored(id, name, path));
                },
            }
        }
        Err(RegistryError::QueryFailure)
    }

    /// Prepares the text of `command`, binds its values to the parameters 1,
    /// 2, ... in their order and evaluates the statement.
    fn perform(&self, command: &Command) -> (performed: Result<(), RegistryError>)
        requires
            command@.text == INSERT@ || command@.text == DELETE@,
            command@.well_formed(),
        ensures
            !all_bindable(command@.values) ==> performed is Err,
            performed matches Err(failure) ==> failure == RegistryError::QueryFailure,
    {
        let mut statement = classify(
            prepare(&self.db_conn, command.text.as_str()),
            RegistryError::QueryFailure,
        )?;
        let mut bound: usize = 0;
        while bound < command.values.len()
            invariant
                bound <= command.values.len(),
                forall|i: int| 0 <= i < bound ==> bindable(#[trigger] command@.values[i]),
            decreases command.values.len() - bound,
        {
            let value = command.values[bound].as_str();
            assert(value@ == command@.values[bound as int]);
            if value.as_bytes().len() > MAX_BOUND_BYTES {
                return Err(RegistryError::QueryFailure);
            }
            classify(bind_text(&mut statement, bound + 1, value), RegistryError::QueryFailure)?;
            bound = bound + 1;
        }
        classify(advance(&mut statement), RegistryError::QueryFailure)?;
        Ok(())
    }
}

} // verus!
