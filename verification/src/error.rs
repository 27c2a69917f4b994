//! The ways in which planning a migration file can fail.

use crate::date::Date;
use vstd::prelude::*;

verus! {

/// Why no migration file was planned.
#[derive(Clone, Copy, Debug, PartialEq, Eq, Structural)]
pub enum MigrationError {
    /// The operation works on a column and no column was named.
    MissingColumn,
    /// No directory from the starting one up to the top holds the root marker.
    RootNotFound,
    /// A migration file that exists is dated after today; this is the latest
    /// such day.
    FutureDateDetected(Date),
    /// The template of the operation could not be rendered.
    TemplateRender,
}

impl MigrationError {
    /// What the failure says to the user.
    pub open spec fn message_text(self) -> Seq<char> {
        match self {
            MigrationError::MissingColumn => "column is required"@,
            MigrationError::RootNotFound => "Could not find any gen root"@,
            MigrationError::FutureDateDetected(date) => "found date "@ + date.dashed()
                + " in future"@,
            MigrationError::TemplateRender => "could not render the template"@,
        }
    }

    /// Writes what the failure says to the user.
    pub fn message(&self) -> (r: String)
        ensures
            r@ == self.message_text(),
    {
        match self {
            MigrationError::MissingColumn => String::from_str("column is required"),
            MigrationError::RootNotFound => String::from_str("Could not find any gen root"),
            MigrationError::FutureDateDetected(date) => {
                let mut r = String::from_str("found date ");
                let date = date.to_dashed();
                r.append(date.as_str());
                r.append(" in future");
                r
            },
            MigrationError::TemplateRender => String::from_str("could not render the template"),
        }
    }
}

} // verus!
