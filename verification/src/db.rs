//! Keys of the table that maps enum-typed database columns to their parsers.
use vstd::prelude::*;

verus! {

/// A column of an entity, by entity name and column name.
#[derive(Debug, Hash, PartialEq, Eq)]
pub struct ColumnEnumKey {
    entity_name: String,
    column_name: String,
}

impl ColumnEnumKey {
    /// The entity name of the column.
    pub closed spec fn entity(&self) -> Seq<char> {
        self.entity_name@
    }

    /// The name of the column.
    pub closed spec fn column(&self) -> Seq<char> {
        self.column_name@
    }

    /// The key of column `column_name` of entity `entity_name`.
    pub fn new(entity_name: &str, column_name: &str) -> (k: ColumnEnumKey)
        ensures
            k.entity() == entity_name@,
            k.column() == column_name@,
    {
        ColumnEnumKey { entity_name: String::from_str(entity_name), column_name: String::from_str(column_name) }
    }

    /// The entity name of the column.
    pub fn entity_name(&self) -> (s: &str)
        ensures
            s@ == self.entity(),
    {
        self.entity_name.as_str()
    }

    /// The name of the column.
    pub fn column_name(&self) -> (s: &str)
        ensures
            s@ == self.column(),
    {
        self.column_name.as_str()
    }
}

} // verus!
