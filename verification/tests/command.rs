use exe_registry::command::{Command, CREATE_TABLE, DELETE, INSERT, SELECT_ALL};

#[test]
fn the_statement_texts_are_fixed() {
    assert_eq!(
        CREATE_TABLE,
        "create table if not exists executables (id integer primary key, name text, path text)"
    );
    assert_eq!(INSERT, "insert into executables(name, path) values(?, ?)");
    assert_eq!(DELETE, "delete from executables where cast(id as text) = ?");
    assert_eq!(
        SELECT_ALL,
        "select id as id, name as name, path as path from executables"
    );
}

#[test]
fn an_insert_command_carries_name_and_path_as_values() {
    let command = Command::insert("Notepad", "/usr/bin/notepad");
    assert_eq!(command.text, "insert into executables(name, path) values(?, ?)");
    assert_eq!(command.values, vec!["Notepad".to_string(), "/usr/bin/notepad".to_string()]);
}

#[test]
fn a_quote_stays_out_of_the_insert_text() {
    let plain = Command::insert("plain", "/bin/plain");
    let quoted = Command::insert("O'Brien", "x'); drop table executables; --");
    assert_eq!(quoted.text, plain.text);
    assert_eq!(
        quoted.values,
        vec!["O'Brien".to_string(), "x'); drop table executables; --".to_string()]
    );
}

#[test]
fn a_delete_command_carries_the_id_as_its_value() {
    let command = Command::delete("17");
    assert_eq!(command.text, "delete from executables where cast(id as text) = ?");
    assert_eq!(command.values, vec!["17".to_string()]);
}

#[test]
fn a_quote_stays_out_of_the_delete_text() {
    let command = Command::delete("1' or '1'='1");
    assert_eq!(command.text, "delete from executables where cast(id as text) = ?");
    assert_eq!(command.values, vec!["1' or '1'='1".to_string()]);
}

#[test]
fn each_command_has_a_placeholder_for_each_value() {
    let insert = Command::insert("?", "??");
    assert_eq!(insert.text.matches('?').count(), insert.values.len());
    let delete = Command::delete("?");
    assert_eq!(delete.text.matches('?').count(), delete.values.len());
}
