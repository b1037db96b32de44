//! Table-level data: the per-snapshot summary of one table and the opaque
//! per-table configuration blob.

use vstd::prelude::*;

verus! {

/// Immutable-per-snapshot description of one table, produced fresh on each
/// table-load call and never cached by this core.
#[derive(Debug)]
pub struct BasableTable {
    pub name: String,
    pub row_count: u32,
    pub col_count: u32,
    pub created: Option<String>,
    pub updated: Option<String>,
}

/// The summaries of all tables visible to one connection.
pub type TableList = Vec<BasableTable>;

/// Configuration associated with one table name. Its content is opaque to
/// the core; ownership transfers to whichever store the caller designates.
#[derive(Debug)]
pub struct TableConfig {
    pub payload: String,
}

/// Whether `tables` holds a table called `name`.
pub open spec fn has_table(tables: Seq<BasableTable>, name: Seq<char>) -> bool {
    exists|i: int| 0 <= i < tables.len() && tables[i].name@ == name
}

impl Clone for BasableTable {
    fn clone(&self) -> (r: Self)
        ensures
            r == *self,
    {
        let created = match &self.created {
            Some(s) => Some(s.clone()),
            None => None,
        };
        let updated = match &self.updated {
            Some(s) => Some(s.clone()),
            None => None,
        };
        BasableTable {
            name: self.name.clone(),
            row_count: self.row_count,
            col_count: self.col_count,
            created,
            updated,
        }
    }
}

impl Clone for TableConfig {
    fn clone(&self) -> (r: Self)
        ensures
            r == *self,
    {
        TableConfig { payload: self.payload.clone() }
    }
}

} // verus!
