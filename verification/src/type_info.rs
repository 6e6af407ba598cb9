//! Catalog type descriptors.

use vstd::prelude::*;

verus! {

/// The descriptor of a type in the database's catalog: its name.
///
/// Two descriptors name the same type exactly when their names are equal,
/// character for character.
#[derive(Debug, PartialEq, Eq)]
pub struct PgTypeInfo {
    name: String,
}

impl View for PgTypeInfo {
    type V = Seq<char>;

    /// The name of the type.
    closed spec fn view(&self) -> Seq<char> {
        self.name@
    }
}

impl PgTypeInfo {
    /// The descriptor of the type that the catalog lists under `name`.
    pub fn with_name(name: &str) -> (ty: Self)
        ensures
            ty@ == name@,
    {
        PgTypeInfo { name: String::from_str(name) }
    }

    /// The name of the type, as the catalog reports it.
    pub fn name(&self) -> (name: &str)
        ensures
            name@ == self@,
    {
        self.name.as_str()
    }
}

} // verus!
