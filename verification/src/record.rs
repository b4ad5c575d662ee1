//! The record that the registry stores for one executable program.

use vstd::prelude::*;

verus! {

/// An executable program that can be run: a display name and the path of the
/// program file. The identifier is absent until the database has assigned one.
#[derive(Clone, Debug)]
pub struct Executable {
    pub id: Option<String>,
    pub name: String,
    pub path: String,
}

/// The mathematical value of an [`Executable`].
pub struct ExecutableView {
    pub id: Option<Seq<char>>,
    pub name: Seq<char>,
    pub path: Seq<char>,
}

impl ExecutableView {
    /// What holds of every record that was read from the database: it has
    /// the identifier that the database gave it.
    pub open spec fn listed(self) -> bool {
        self.id is Some
    }
}

impl View for Executable {
    type V = ExecutableView;

    open spec fn view(&self) -> ExecutableView {
        ExecutableView {
            id: match self.id {
                Some(id) => Some(id@),
                None => None,
            },
            name: self.name@,
            path: self.path@,
        }
    }
}

impl Executable {
    /// A record that has not been stored yet.
    pub fn unsaved(name: String, path: String) -> (record: Executable)
        ensures
            record@ == (ExecutableView { id: None, name: name@, path: path@ }),
    {
        Executable { id: None, name, path }
    }

    /// A record as the database holds it, under the identifier it was given.
    pub fn stored(id: String, name: String, path: String) -> (record: Executable)
        ensures
            record@ == (ExecutableView { id: Some(id@), name: name@, path: path@ }),
    {
        Executable { id: Some(id), name, path }
    }
}

} // verus!
