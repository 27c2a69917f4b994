//! The kinds of migration, the phrase each one puts into a file name, and the
//! template each one starts its file from.

use crate::text::{owned_text_of, replace_char, replaced, text_of, to_owned_text};
use vstd::prelude::*;

verus! {

/// What a migration does to the schema.
#[derive(Clone, Copy, Debug, PartialEq, Eq, Structural)]
pub enum Operation {
    Script,
    CreateTable,
    AlterTable,
    DropTable,
    AddColumn,
    AlterColumn,
    DropColumn,
}

/// The template of a file that creates a table.
pub const CREATE_TABLE_TEMPLATE: &'static str =
    "create table {schema_name}{dot}{table_name}\n(\n    id bigint primary key\n);\n";

/// The template of a file that adds a column to a table.
pub const ADD_COLUMN_TEMPLATE: &'static str =
    "alter table {schema_name}{dot}{table_name}\n    add column {column_name} text;\n";

/// The template of a file that drops a column of a table.
pub const DROP_COLUMN_TEMPLATE: &'static str =
    "alter table {schema_name}{dot}{table_name}\n    drop column {column_name};\n";

/// `text` is one of the three templates.
pub open spec fn is_template(text: Seq<char>) -> bool {
    text == CREATE_TABLE_TEMPLATE@ || text == ADD_COLUMN_TEMPLATE@ || text == DROP_COLUMN_TEMPLATE@
}

/// What a template is filled with, and the template.
#[derive(Debug)]
pub struct TemplateData {
    pub table_name: String,
    pub column_name: Option<String>,
    pub schema_name: Option<String>,
    /// The separator between schema and table: present with the schema.
    pub dot: Option<String>,
    pub template: &'static str,
}

/// The characters that a `TemplateData` holds.
pub struct TemplateFields {
    pub table_name: Seq<char>,
    pub column_name: Option<Seq<char>>,
    pub schema_name: Option<Seq<char>>,
    pub dot: Option<Seq<char>>,
    pub template: Seq<char>,
}

impl View for TemplateData {
    type V = TemplateFields;

    open spec fn view(&self) -> TemplateFields {
        TemplateFields {
            table_name: self.table_name@,
            column_name: owned_text_of(self.column_name),
            schema_name: owned_text_of(self.schema_name),
            dot: owned_text_of(self.dot),
            template: self.template@,
        }
    }
}

/// The separator that goes with a schema: a dot where there is a schema.
pub open spec fn dot_for(schema: Option<Seq<char>>) -> Option<Seq<char>> {
    match schema {
        Some(_) => Some("."@),
        None => None,
    }
}

impl Operation {
    /// Whether the operation works on one column of a table and so needs
    /// the column's name.
    pub open spec fn needs_column(self) -> bool {
        self is AddColumn || self is AlterColumn || self is DropColumn
    }

    /// The phrase that the operation puts into the file name.
    ///
    /// A script is called by its name, with an underscore for each space;
    /// the others say what they do to the table `name`, and to `column`
    /// where they work on one.
    pub open spec fn description(self, name: Seq<char>, column: Option<Seq<char>>) -> Seq<char> {
        match self {
            Operation::Script => replaced(name, ' ', "_"@),
            Operation::CreateTable => "create table "@ + name,
            Operation::AlterTable => "alter table "@ + name,
            Operation::DropTable => "drop table "@ + name,
            Operation::AddColumn => "add column "@ + column.unwrap() + " to "@ + name,
            Operation::AlterColumn => "alter column "@ + column.unwrap() + " in "@ + name,
            Operation::DropColumn => "drop column "@ + column.unwrap() + " from "@ + name,
        }
    }

    /// The template that the operation starts its file from, where it has one.
    pub open spec fn template(self) -> Option<Seq<char>> {
        match self {
            Operation::CreateTable => Some(CREATE_TABLE_TEMPLATE@),
            Operation::AddColumn => Some(ADD_COLUMN_TEMPLATE@),
            Operation::DropColumn => Some(DROP_COLUMN_TEMPLATE@),
            _ => None,
        }
    }

    /// What the operation's template is filled with: nothing where it has no
    /// template. The column goes in where the operation adds or drops one,
    /// and the separator is there exactly when the schema is.
    pub open spec fn template_data(
        self,
        name: Seq<char>,
        schema: Option<Seq<char>>,
        column: Option<Seq<char>>,
    ) -> Option<TemplateFields> {
        match self.template() {
            Some(template) => Some(
                TemplateFields {
                    table_name: name,
                    column_name: if self is CreateTable {
                        None
                    } else {
                        column
                    },
                    schema_name: schema,
                    dot: dot_for(schema),
                    template,
                },
            ),
            None => None,
        }
    }

    /// Decides `needs_column`.
    pub fn is_column_operation(&self) -> (b: bool)
        ensures
            b == self.needs_column(),
    {
        match self {
            Operation::AddColumn | Operation::AlterColumn | Operation::DropColumn => true,
            _ => false,
        }
    }

    /// Composes the phrase that stands in the file name after the index.
    pub fn to_file_name(&self, name: &str, column: Option<&str>) -> (r: String)
        requires
            self.needs_column() ==> column is Some,
        ensures
            r@ == self.description(name@, text_of(column)),
    {
        match self {
            Operation::Script => replace_char(name, ' ', "_"),
            Operation::CreateTable => phrase("create table ", name),
            Operation::AlterTable => phrase("alter table ", name),
            Operation::DropTable => phrase("drop table ", name),
            Operation::AddColumn => column_phrase("add column ", column.unwrap(), " to ", name),
            Operation::AlterColumn => column_phrase("alter column ", column.unwrap(), " in ", name),
            Operation::DropColumn => column_phrase("drop column ", column.unwrap(), " from ", name),
        }
    }

    /// Collects what the operation's template is to be filled with.
    pub fn get_template_data(&self, name: &str, schema: Option<&str>, column: Option<&str>) -> (r:
        Option<TemplateData>)
        ensures
            match r {
                Some(data) => Some(data@) == self.template_data(
                    name@,
                    text_of(schema),
                    text_of(column),
                ),
                None => self.template() is None,
            },
    {
        match self {
            Operation::Script => None,
            Operation::CreateTable => Some(
                TemplateData {
                    table_name: name.to_owned(),
                    column_name: None,
                    schema_name: to_owned_text(schema),
                    dot: dot(schema),
                    template: CREATE_TABLE_TEMPLATE,
                },
            ),
            Operation::AlterTable => None,
            Operation::DropTable => None,
            Operation::AddColumn => Some(
                TemplateData {
                    table_name: name.to_owned(),
                    column_name: to_owned_text(column),
                    schema_name: to_owned_text(schema),
                    dot: dot(schema),
                    template: ADD_COLUMN_TEMPLATE,
                },
            ),
            Operation::AlterColumn => None,
            Operation::DropColumn => Some(
                TemplateData {
                    table_name: name.to_owned(),
                    column_name: to_owned_text(column),
                    schema_name: to_owned_text(schema),
                    dot: dot(schema),
                    template: DROP_COLUMN_TEMPLATE,
                },
            ),
        }
    }
}

/// The separator that goes with `schema`.
fn dot(schema: Option<&str>) -> (r: Option<String>)
    ensures
        owned_text_of(r) == dot_for(text_of(schema)),
{
    match schema {
        Some(_) => Some(String::from_str(".")),
        None => None,
    }
}

/// What is done, and the table's name.
fn phrase(verb: &str, name: &str) -> (r: String)
    ensures
        r@ == verb@ + name@,
{
    let mut r = String::from_str(verb);
    r.append(name);
    r
}

/// What is done, the column's name, the linking word, and the table's name.
fn column_phrase(verb: &str, column: &str, link: &str, name: &str) -> (r: String)
    ensures
        r@ == verb@ + column@ + link@ + name@,
{
    let mut r = String::from_str(verb);
    r.append(column);
    r.append(link);
    r.append(name);
    r
}

} // verus!
