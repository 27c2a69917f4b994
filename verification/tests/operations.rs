use migration_gen::args::Args;
use migration_gen::error::MigrationError;
use migration_gen::operation::{
    Operation, ADD_COLUMN_TEMPLATE, CREATE_TABLE_TEMPLATE, DROP_COLUMN_TEMPLATE,
};

fn all_operations() -> Vec<Operation> {
    vec![
        Operation::Script,
        Operation::CreateTable,
        Operation::AlterTable,
        Operation::DropTable,
        Operation::AddColumn,
        Operation::AlterColumn,
        Operation::DropColumn,
    ]
}

fn request(operation: Operation, column: Option<&str>) -> Args {
    Args {
        operation,
        name: "users".to_string(),
        column: column.map(|c| c.to_string()),
        schema: None,
    }
}

#[test]
fn script_name_gets_underscores_for_spaces() {
    assert_eq!(
        Operation::Script.to_file_name("fix the user table", None),
        "fix_the_user_table"
    );
}

#[test]
fn script_name_without_spaces_is_kept() {
    assert_eq!(Operation::Script.to_file_name("cleanup", None), "cleanup");
    assert_eq!(Operation::Script.to_file_name("", None), "");
}

#[test]
fn script_name_keeps_other_blank_characters() {
    assert_eq!(Operation::Script.to_file_name(" a\tb  c ", None), "_a\tb__c_");
}

#[test]
fn script_ignores_the_column() {
    assert_eq!(Operation::Script.to_file_name("a b", Some("c d")), "a_b");
}

#[test]
fn table_operations_say_what_they_do() {
    assert_eq!(
        Operation::CreateTable.to_file_name("users", None),
        "create table users"
    );
    assert_eq!(
        Operation::AlterTable.to_file_name("users", None),
        "alter table users"
    );
    assert_eq!(
        Operation::DropTable.to_file_name("users", None),
        "drop table users"
    );
}

#[test]
fn table_operations_keep_spaces_of_the_name() {
    assert_eq!(
        Operation::CreateTable.to_file_name("user accounts", Some("unused")),
        "create table user accounts"
    );
}

#[test]
fn column_operations_name_column_and_table() {
    assert_eq!(
        Operation::AddColumn.to_file_name("users", Some("email")),
        "add column email to users"
    );
    assert_eq!(
        Operation::AlterColumn.to_file_name("users", Some("email")),
        "alter column email in users"
    );
    assert_eq!(
        Operation::DropColumn.to_file_name("users", Some("email")),
        "drop column email from users"
    );
}

#[test]
fn only_column_operations_need_a_column() {
    for operation in all_operations() {
        let needs = matches!(
            operation,
            Operation::AddColumn | Operation::AlterColumn | Operation::DropColumn
        );
        assert_eq!(operation.is_column_operation(), needs);
    }
}

#[test]
fn validation_fails_on_a_column_operation_without_column() {
    for operation in all_operations() {
        let result = request(operation, None).validate();
        if operation.is_column_operation() {
            assert_eq!(result, Err(MigrationError::MissingColumn));
        } else {
            assert_eq!(result, Ok(()));
        }
    }
}

#[test]
fn validation_passes_with_a_column() {
    for operation in all_operations() {
        assert_eq!(request(operation, Some("email")).validate(), Ok(()));
    }
}

#[test]
fn validation_accepts_an_empty_column() {
    assert_eq!(request(Operation::AddColumn, Some("")).validate(), Ok(()));
}

#[test]
fn operations_without_template_have_no_data() {
    for operation in [
        Operation::Script,
        Operation::AlterTable,
        Operation::DropTable,
        Operation::AlterColumn,
    ] {
        assert!(operation
            .get_template_data("users", Some("public"), Some("email"))
            .is_none());
    }
}

#[test]
fn create_table_data_leaves_the_column_out() {
    let data = Operation::CreateTable
        .get_template_data("users", Some("public"), Some("email"))
        .unwrap();
    assert_eq!(data.table_name, "users");
    assert_eq!(data.column_name, None);
    assert_eq!(data.schema_name, Some("public".to_string()));
    assert_eq!(data.dot, Some(".".to_string()));
    assert_eq!(data.template, CREATE_TABLE_TEMPLATE);
}

#[test]
fn add_column_data_holds_the_column() {
    let data = Operation::AddColumn
        .get_template_data("users", None, Some("email"))
        .unwrap();
    assert_eq!(data.table_name, "users");
    assert_eq!(data.column_name, Some("email".to_string()));
    assert_eq!(data.schema_name, None);
    assert_eq!(data.dot, None);
    assert_eq!(data.template, ADD_COLUMN_TEMPLATE);
}

#[test]
fn drop_column_data_holds_the_column() {
    let data = Operation::DropColumn
        .get_template_data("users", Some("audit"), Some("email"))
        .unwrap();
    assert_eq!(data.table_name, "users");
    assert_eq!(data.column_name, Some("email".to_string()));
    assert_eq!(data.schema_name, Some("audit".to_string()));
    assert_eq!(data.dot, Some(".".to_string()));
    assert_eq!(data.template, DROP_COLUMN_TEMPLATE);
}

#[test]
fn column_data_without_column_has_none() {
    let data = Operation::DropColumn
        .get_template_data("users", None, None)
        .unwrap();
    assert_eq!(data.column_name, None);
}
