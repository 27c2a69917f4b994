//! Planning one migration file: its index, its name and its content.

use crate::args::Args;
use crate::date::Date;
use crate::digits::{zero_padded, zero_padded_text};
use crate::error::MigrationError;
use crate::render::render_template;
use crate::scan::{find_last_file_for_current_day, last_index_for_day, lemma_last_index_is_small};
use crate::text::{as_text, owned_text_of};
use vstd::prelude::*;

verus! {

/// A migration file that is to be written.
#[derive(Debug)]
pub struct Migration {
    /// The sequence index of the file within its day.
    pub index: i32,
    /// The name of the file.
    pub file_name: String,
    /// What the file starts with; an operation without a template leaves
    /// the file empty.
    pub content: Option<String>,
}

/// The index that follows the last one used: 1 where none was used.
pub open spec fn index_after(last: Option<i32>) -> int {
    match last {
        Some(index) => index + 1,
        None => 1,
    }
}

/// The index as it stands in a file name: in base ten, with a zero in front
/// of a single digit, and with a minus sign in front of a negative number.
pub open spec fn index_text(index: int) -> Seq<char> {
    if index < 0 {
        "-"@ + zero_padded((-index) as nat, 1)
    } else {
        zero_padded(index as nat, 2)
    }
}

/// The name of the migration file of the day `today` with the index `index`
/// and the phrase `description`: `YYYYMMDDNN - <description>.sql`.
pub open spec fn file_name_of(today: Date, index: int, description: Seq<char>) -> Seq<char> {
    today.compact() + index_text(index) + " - "@ + description + ".sql"@
}

/// The index of the next file after `last`, the last index used today.
pub fn next_index(last: Option<i32>) -> (r: i32)
    requires
        last matches Some(index) ==> index < i32::MAX,
    ensures
        r == index_after(last),
{
    match last {
        Some(index) => index + 1,
        None => 1,
    }
}

/// Writes an index as it stands in a file name.
pub fn index_to_text(index: i32) -> (r: String)
    ensures
        r@ == index_text(index as int),
{
    if index < 0 {
        let size: u32 = if index == i32::MIN {
            2147483648
        } else {
            (-index) as u32
        };
        let mut r = String::from_str("-");
        let digits = zero_padded_text(size, 1);
        r.append(digits.as_str());
        r
    } else {
        zero_padded_text(index as u32, 2)
    }
}

/// Composes the name of a migration file.
pub fn file_name(today: &Date, index: i32, description: &str) -> (r: String)
    ensures
        r@ == file_name_of(*today, index as int, description@),
{
    let mut r = today.to_compact();
    let index = index_to_text(index);
    r.append(index.as_str());
    r.append(" - ");
    r.append(description);
    r.append(".sql");
    r
}

impl Args {
    /// The phrase that the request puts into the file name.
    pub open spec fn description(&self) -> Seq<char> {
        self.operation.description(self.name@, owned_text_of(self.column))
    }

    /// What the engine makes of the template of the request's operation:
    /// nothing where the operation has no template or the engine fails.
    pub open spec fn rendering(&self) -> Option<Seq<char>> {
        match self.operation.template_data(
            self.name@,
            owned_text_of(self.schema),
            owned_text_of(self.column),
        ) {
            Some(fields) => fields.rendering(),
            None => None,
        }
    }
}

/// The characters and numbers that a `Migration` holds.
pub struct MigrationView {
    pub index: i32,
    pub file_name: Seq<char>,
    pub content: Option<Seq<char>>,
}

impl View for Migration {
    type V = MigrationView;

    open spec fn view(&self) -> MigrationView {
        MigrationView {
            index: self.index,
            file_name: self.file_name@,
            content: owned_text_of(self.content),
        }
    }
}

/// The migration file that `args` asks for on the day `today`, beside the
/// files `names`.
///
/// There is none where the request is not valid; else where a file is dated
/// after `today`; else where the operation has a template and the engine
/// fails on it. Else the file gets the index after the last one used on
/// `today`, the name made of `today`, that index and the phrase of the
/// request, and for content what the engine makes of the operation's
/// template.
pub open spec fn planned(args: Args, names: Seq<Seq<char>>, today: Date) -> Result<
    MigrationView,
    MigrationError,
> {
    if !args.is_valid() {
        Err(MigrationError::MissingColumn)
    } else {
        match last_index_for_day(names, today) {
            Err(e) => Err(e),
            Ok(last) => if args.operation.template() is Some && args.rendering() is None {
                Err(MigrationError::TemplateRender)
            } else {
                Ok(
                    MigrationView {
                        index: index_after(last) as i32,
                        file_name: file_name_of(today, index_after(last), args.description()),
                        content: args.rendering(),
                    },
                )
            },
        }
    }
}

/// Plans the migration file that `args` asks for, on the day `today`, beside
/// the files that exist and whose names are `file_names`.
pub fn new_migration(args: &Args, file_names: &Vec<String>, today: Date) -> (r: Result<
    Migration,
    MigrationError,
>)
    ensures
        match r {
            Ok(migration) => planned(*args, file_names.deep_view(), today) == Ok::<
                MigrationView,
                MigrationError,
            >(migration@),
            Err(e) => planned(*args, file_names.deep_view(), today) == Err::<
                MigrationView,
                MigrationError,
            >(e),
        },
{
    match args.validate() {
        Err(e) => {
            return Err(e);
        },
        Ok(_) => {},
    }
    let last = match find_last_file_for_current_day(file_names, today) {
        Err(e) => {
            return Err(e);
        },
        Ok(last) => last,
    };
    proof {
        lemma_last_index_is_small(file_names.deep_view(), today);
    }
    let index = next_index(last);
    let description = args.operation.to_file_name(args.name.as_str(), as_text(&args.column));
    let file_name = file_name(&today, index, description.as_str());
    let data = args.operation.get_template_data(
        args.name.as_str(),
        as_text(&args.schema),
        as_text(&args.column),
    );
    let content = match data {
        Some(data) => {
            match render_template(&data) {
                Err(e) => {
                    return Err(e);
                },
                Ok(text) => Some(text),
            }
        },
        None => None,
    };
    Ok(Migration { index, file_name, content })
}

} // verus!
