//! The request for one migration file.

use crate::error::MigrationError;
use crate::operation::Operation;
use vstd::prelude::*;

verus! {

/// What the user asked for: the operation and the name of the table (or of
/// the script), with the column that the operation works on and the schema of
/// the table where there is one.
#[derive(Debug)]
pub struct Args {
    pub operation: Operation,
    pub name: String,
    pub column: Option<String>,
    pub schema: Option<String>,
}

impl Args {
    /// A request is valid unless its operation needs a column and none is given.
    pub open spec fn is_valid(&self) -> bool {
        self.operation.needs_column() ==> self.column is Some
    }

    /// Rejects a column operation without a column, and nothing else.
    pub fn validate(&self) -> (r: Result<(), MigrationError>)
        ensures
            r is Ok <==> self.is_valid(),
            r is Err ==> r == Err::<(), MigrationError>(MigrationError::MissingColumn),
    {
        if self.operation.is_column_operation() && self.column.is_none() {
            Err(MigrationError::MissingColumn)
        } else {
            Ok(())
        }
    }
}

} // verus!
