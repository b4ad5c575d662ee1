//! The statements that the registry hands to the database engine.
//!
//! A statement is a fixed text with `?` placeholders and the values bound to
//! them. User input travels only among the values, never inside the text, so
//! no name, path or identifier can change what a statement means.

use vstd::prelude::*;

verus! {

/// The statement that creates the table of executables unless it exists.
pub const CREATE_TABLE: &'static str =
    "create table if not exists executables (id integer primary key, name text, path text)";

/// The statement that inserts one record; its values are the name and the path.
pub const INSERT: &'static str = "insert into executables(name, path) values(?, ?)";

/// The statement that deletes the record with a given identifier; its value
/// is the identifier. The key is compared as the text under which it is
/// listed, so that only the identifier itself finds its record.
pub const DELETE: &'static str = "delete from executables where cast(id as text) = ?";

/// The query that selects every record. It names its three result columns
/// itself, so that they are called as this text calls them.
pub const SELECT_ALL: &'static str =
    "select id as id, name as name, path as path from executables";

/// True when `text` is one of the statements that the library prepares.
pub open spec fn prepared_by_library(text: Seq<char>) -> bool {
    text == INSERT@ || text == DELETE@ || text == SELECT_ALL@
}

/// A statement text and the values for its placeholders, in their order.
#[derive(Debug)]
pub struct Command {
    pub text: String,
    pub values: Vec<String>,
}

/// The mathematical value of a [`Command`].
pub struct CommandView {
    pub text: Seq<char>,
    pub values: Seq<Seq<char>>,
}

impl View for Command {
    type V = CommandView;

    open spec fn view(&self) -> CommandView {
        CommandView { text: self.text@, values: self.values.deep_view() }
    }
}

/// The number of `?` placeholders in a statement text.
pub open spec fn placeholders(text: Seq<char>) -> nat
    decreases text.len(),
{
    if text.len() == 0 {
        0
    } else {
        placeholders(text.drop_last()) + if text.last() == '?' {
            1nat
        } else {
            0nat
        }
    }
}

impl CommandView {
    /// A command is well formed when it has one value for each placeholder.
    pub open spec fn well_formed(self) -> bool {
        placeholders(self.text) == self.values.len()
    }
}

/// The command that inserts a record with this name and path.
pub open spec fn insertion(name: Seq<char>, path: Seq<char>) -> CommandView {
    CommandView { text: INSERT@, values: seq![name, path] }
}

/// The command that deletes the record with this identifier.
pub open spec fn deletion(id: Seq<char>) -> CommandView {
    CommandView { text: DELETE@, values: seq![id] }
}

impl Command {
    /// Builds the command that inserts a record with this name and path.
    pub fn insert(name: &str, path: &str) -> (command: Command)
        ensures
            command@ == insertion(name@, path@),
            command@.well_formed(),
    {
        let mut values: Vec<String> = Vec::new();
        values.push(name.to_owned());
        values.push(path.to_owned());
        let command = Command { text: INSERT.to_owned(), values };
        proof {
            assert(command.values.deep_view() =~= seq![name@, path@]);
            insertion_is_injection_safe(name@, path@);
        }
        command
    }

    /// Builds the command that deletes the record with this identifier.
    pub fn delete(id: &str) -> (command: Command)
        ensures
            command@ == deletion(id@),
            command@.well_formed(),
    {
        let mut values: Vec<String> = Vec::new();
        values.push(id.to_owned());
        let command = Command { text: DELETE.to_owned(), values };
        proof {
            assert(command.values.deep_view() =~= seq![id@]);
            deletion_is_injection_safe(id@);
        }
        command
    }
}

/// Counting the placeholders of a prefix goes one character at a time.
proof fn placeholders_of_prefix(text: Seq<char>, n: int)
    requires
        0 < n <= text.len(),
    ensures
        placeholders(text.take(n)) == placeholders(text.take(n - 1)) + if text[n - 1] == '?' {
            1nat
        } else {
            0nat
        },
{
    assert(text.take(n).drop_last() =~= text.take(n - 1));
}

/// The insert text has its two placeholders at the positions 43 and 46.
proof fn insert_prefix_placeholders(n: int)
    requires
        0 <= n <= 48,
    ensures
        INSERT@.len() == 48,
        placeholders(INSERT@.take(n)) == if n <= 43 {
            0nat
        } else if n <= 46 {
            1nat
        } else {
            2nat
        },
    decreases n,
{
    reveal_strlit("insert into executables(name, path) values(?, ?)");
    if n > 0 {
        placeholders_of_prefix(INSERT@, n);
        insert_prefix_placeholders(n - 1);
    }
}

/// The delete text has its one placeholder at the position 49.
proof fn delete_prefix_placeholders(n: int)
    requires
        0 <= n <= 50,
    ensures
        DELETE@.len() == 50,
        placeholders(DELETE@.take(n)) == if n <= 49 {
            0nat
        } else {
            1nat
        },
    decreases n,
{
    reveal_strlit("delete from executables where cast(id as text) = ?");
    if n > 0 {
        placeholders_of_prefix(DELETE@, n);
        delete_prefix_placeholders(n - 1);
    }
}

/// Whatever characters a name and a path hold, quotes among them, the insert
/// command has the one fixed text, with a placeholder for each of the two
/// values, and carries the name and the path unchanged.
pub proof fn insertion_is_injection_safe(name: Seq<char>, path: Seq<char>)
    ensures
        insertion(name, path).text == INSERT@,
        insertion(name, path).values == seq![name, path],
        insertion(name, path).well_formed(),
{
    insert_prefix_placeholders(48);
    assert(INSERT@.take(48) =~= INSERT@);
}

/// Whatever characters an identifier holds, the delete command has the one
/// fixed text, with a placeholder for its one value, and carries the
/// identifier unchanged.
pub proof fn deletion_is_injection_safe(id: Seq<char>)
    ensures
        deletion(id).text == DELETE@,
        deletion(id).values == seq![id],
        deletion(id).well_formed(),
{
    delete_prefix_placeholders(50);
    assert(DELETE@.take(50) =~= DELETE@);
}

} // verus!
