use migration_gen::error::MigrationError;
use migration_gen::operation::{
    Operation, TemplateData, ADD_COLUMN_TEMPLATE, CREATE_TABLE_TEMPLATE, DROP_COLUMN_TEMPLATE,
};
use migration_gen::render::{render_template, rendering_outcome};

fn data(
    template: &'static str,
    table: &str,
    column: Option<&str>,
    schema: Option<&str>,
) -> TemplateData {
    TemplateData {
        table_name: table.to_string(),
        column_name: column.map(|c| c.to_string()),
        schema_name: schema.map(|s| s.to_string()),
        dot: schema.map(|_| ".".to_string()),
        template,
    }
}

#[test]
fn create_table_with_schema_names_schema_and_table() {
    let filled = data(CREATE_TABLE_TEMPLATE, "users", None, Some("public"));
    let text = render_template(&filled).unwrap();
    assert!(text.contains("public.users"));
    assert_eq!(
        text,
        "create table public.users\n(\n    id bigint primary key\n);\n"
    );
}

#[test]
fn create_table_without_schema_names_the_bare_table() {
    let text = render_template(&data(CREATE_TABLE_TEMPLATE, "users", None, None)).unwrap();
    assert!(text.contains("create table users"));
    assert!(!text.contains(".users"));
    assert_eq!(text, "create table users\n(\n    id bigint primary key\n);\n");
}

#[test]
fn add_column_names_table_and_column() {
    let with_schema =
        render_template(&data(ADD_COLUMN_TEMPLATE, "users", Some("email"), Some("public")))
            .unwrap();
    assert_eq!(
        with_schema,
        "alter table public.users\n    add column email text;\n"
    );
    let without =
        render_template(&data(ADD_COLUMN_TEMPLATE, "users", Some("email"), None)).unwrap();
    assert_eq!(without, "alter table users\n    add column email text;\n");
}

#[test]
fn drop_column_names_table_and_column() {
    let with_schema =
        render_template(&data(DROP_COLUMN_TEMPLATE, "users", Some("email"), Some("audit")))
            .unwrap();
    assert_eq!(
        with_schema,
        "alter table audit.users\n    drop column email;\n"
    );
    let without =
        render_template(&data(DROP_COLUMN_TEMPLATE, "users", Some("email"), None)).unwrap();
    assert_eq!(without, "alter table users\n    drop column email;\n");
}

#[test]
fn an_absent_column_renders_as_nothing() {
    let text = render_template(&data(DROP_COLUMN_TEMPLATE, "users", None, None)).unwrap();
    assert_eq!(text, "alter table users\n    drop column ;\n");
}

#[test]
fn the_separator_is_rendered_as_given() {
    let mut odd = data(CREATE_TABLE_TEMPLATE, "users", None, Some("public"));
    odd.dot = Some("::".to_string());
    let text = render_template(&odd).unwrap();
    assert!(text.contains("public::users"));
}

#[test]
fn the_engine_escapes_markup_characters() {
    let text = render_template(&data(CREATE_TABLE_TEMPLATE, "a<b", None, Some("x&y"))).unwrap();
    assert!(text.contains("x&amp;y.a&lt;b"));
}

#[test]
fn braces_in_a_value_are_not_read_as_tags() {
    let text = render_template(&data(CREATE_TABLE_TEMPLATE, "{dot}", None, None)).unwrap();
    assert!(text.contains("create table {dot}\n"));
}

#[test]
fn rendering_goes_through_the_data_of_the_operation() {
    let data = Operation::CreateTable
        .get_template_data("users", Some("public"), None)
        .unwrap();
    let text = render_template(&data).unwrap();
    assert!(text.contains("public.users"));
}

#[test]
fn the_text_of_the_engine_is_the_content() {
    assert_eq!(
        rendering_outcome(Ok("select 1;".to_string())),
        Ok("select 1;".to_string())
    );
    assert_eq!(rendering_outcome(Ok(String::new())), Ok(String::new()));
}

#[test]
fn a_failure_of_the_engine_is_a_render_failure() {
    let failure = tinytemplate::error::Error::GenericError {
        msg: "Unknown template 'template'".to_string(),
    };
    assert_eq!(
        rendering_outcome(Err(failure)),
        Err(MigrationError::TemplateRender)
    );
    let parse = tinytemplate::error::Error::ParseError {
        msg: "bad tag".to_string(),
        line: 1,
        column: 2,
    };
    assert_eq!(
        rendering_outcome(Err(parse)),
        Err(MigrationError::TemplateRender)
    );
}
