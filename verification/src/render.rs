//! Filling a template, which the `tinytemplate` engine does.

use crate::error::MigrationError;
use crate::operation::{is_template, TemplateData, TemplateFields};
use crate::text::{as_text, text_of};
use std::collections::BTreeMap;
use vstd::prelude::*;

verus! {

/// The error of the template engine. Nothing is known of what it holds.
#[verifier::external_type_specification]
#[verifier::external_body]
pub struct ExTemplateError(tinytemplate::error::Error);

/// The text that the template engine makes of a template and the values for
/// its four fields, or nothing where it fails. The engine works on these
/// alone, so the same template and values give the same text.
pub uninterp spec fn rendered(
    template: Seq<char>,
    table_name: Seq<char>,
    column_name: Option<Seq<char>>,
    schema_name: Option<Seq<char>>,
    dot: Option<Seq<char>>,
) -> Option<Seq<char>>;

/// Compiles `template` with `tinytemplate::TinyTemplate::add_template` and
/// renders it with `tinytemplate::TinyTemplate::render`, on a context that
/// holds the four values and the template under the names of the fields of
/// `TemplateData`; an absent value is a null there. The text or failure that
/// comes back is the one `rendered` names. The engine can panic on a template
/// whose tags are cut short; the three templates of this crate are not such.
#[verifier::external_body]
fn render_fields(
    template: &str,
    table_name: &str,
    column_name: Option<&str>,
    schema_name: Option<&str>,
    dot: Option<&str>,
) -> (r: Result<String, tinytemplate::error::Error>)
    requires
        is_template(template@),
    ensures
        match r {
            Ok(text) => rendered(
                template@,
                table_name@,
                text_of(column_name),
                text_of(schema_name),
                text_of(dot),
            ) == Some(text@),
            Err(_) => rendered(
                template@,
                table_name@,
                text_of(column_name),
                text_of(schema_name),
                text_of(dot),
            ) is None,
        },
{
    let mut engine = tinytemplate::TinyTemplate::new();
    engine.add_template("template", template)?;
    let context = BTreeMap::from(
        [
            ("table_name", Some(table_name)),
            ("column_name", column_name),
            ("schema_name", schema_name),
            ("dot", dot),
            ("template", Some(template)),
        ],
    );
    engine.render("template", &context)
}

/// What becomes of the engine's answer: its text is the content of the file,
/// and any failure of it is a `TemplateRender` failure.
pub fn rendering_outcome(answer: Result<String, tinytemplate::error::Error>) -> (r: Result<
    String,
    MigrationError,
>)
    ensures
        match answer {
            Ok(text) => r == Ok::<String, MigrationError>(text),
            Err(_) => r == Err::<String, MigrationError>(MigrationError::TemplateRender),
        },
{
    match answer {
        Ok(text) => Ok(text),
        Err(_) => Err(MigrationError::TemplateRender),
    }
}

impl TemplateFields {
    /// What the engine makes of the template with these values.
    pub open spec fn rendering(self) -> Option<Seq<char>> {
        rendered(self.template, self.table_name, self.column_name, self.schema_name, self.dot)
    }
}

impl TemplateData {
    /// The template is one of the three that the operations use.
    pub open spec fn is_well_formed(&self) -> bool {
        is_template(self.template@)
    }
}

/// Renders the template of `data` with the values of `data`.
///
/// Returns the text that the engine makes of them, and fails with
/// `TemplateRender` exactly where the engine fails.
pub fn render_template(data: &TemplateData) -> (r: Result<String, MigrationError>)
    requires
        data.is_well_formed(),
    ensures
        match r {
            Ok(text) => data@.rendering() == Some(text@),
            Err(e) => e == MigrationError::TemplateRender && data@.rendering() is None,
        },
{
    let answer = render_fields(
        data.template,
        data.table_name.as_str(),
        as_text(&data.column_name),
        as_text(&data.schema_name),
        as_text(&data.dot),
    );
    rendering_outcome(answer)
}

} // verus!
