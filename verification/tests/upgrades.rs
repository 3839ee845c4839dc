use cairn_store::error::StoreError;
use cairn_store::migration::{
    applied_migration, pending, registered_migrations, AppliedMigration, Migration, HISTORY_SQL,
};
use cairn_store::script::split_sql_statements;
use cairn_store::value::SqlValue;

fn applied(version: u32) -> AppliedMigration {
    AppliedMigration { version, name: format!("m{}", version), applied_at: 1 }
}

fn versions(migrations: &[Migration]) -> Vec<u32> {
    migrations.iter().map(|m| m.version).collect()
}

#[test]
fn a_new_database_needs_every_migration() {
    let all = registered_migrations();
    assert_eq!(pending(&vec![]), all);
    let expected: Vec<u32> = (1..=all.len() as u32).collect();
    assert_eq!(versions(&all), expected);
}

#[test]
fn pending_migrations_follow_the_greatest_applied() {
    let left = pending(&vec![applied(3), applied(46), applied(45)]);
    assert_eq!(versions(&left), vec![47, 48, 49]);
    assert_eq!(pending(&vec![applied(49)]), vec![]);
}

#[test]
fn a_row_of_the_history_is_an_applied_migration() {
    assert_eq!(
        applied_migration(7, "create_mailbox".to_owned(), 9),
        AppliedMigration { version: 7, name: "create_mailbox".to_owned(), applied_at: 9 }
    );
    assert_eq!(
        HISTORY_SQL,
        "SELECT version, name, applied_at FROM _cairn_migrations ORDER BY version"
    );
}

#[test]
fn a_migration_is_labelled_by_version_and_name() {
    let label = |version| Migration { version, name: "add_x" }.label();
    assert_eq!(label(7), "V007__add_x");
    assert_eq!(label(42), "V042__add_x");
    assert_eq!(label(123), "V123__add_x");
    assert_eq!(label(1234), "V1234__add_x");
}

#[test]
fn a_failed_migration_is_named() {
    assert_eq!(
        Migration { version: 14, name: "add_chunks_fts" }.failure("syntax error"),
        StoreError::Migration("V014__add_chunks_fts: syntax error".to_owned())
    );
}

#[test]
fn a_migration_runs_its_statements_and_is_recorded() {
    let run = Migration { version: 2, name: "create_sessions" }.run("SELECT 1; SELECT 2;", 88);
    assert_eq!(run.statements, vec!["SELECT 1".to_owned(), "SELECT 2".to_owned()]);
    assert_eq!(
        run.record.text,
        "INSERT INTO _cairn_migrations (version, name, applied_at) VALUES ($1, $2, $3)"
    );
    assert_eq!(
        run.record.params,
        vec![
            SqlValue::Int4(2),
            SqlValue::Text("create_sessions".to_owned()),
            SqlValue::Int8(88),
        ]
    );
    assert_eq!(
        run.applied,
        AppliedMigration { version: 2, name: "create_sessions".to_owned(), applied_at: 88 }
    );
}

#[test]
fn a_script_without_statements_is_empty() {
    assert_eq!(split_sql_statements(""), Vec::<String>::new());
    assert_eq!(split_sql_statements(" ;; \n ; "), Vec::<String>::new());
    assert_eq!(split_sql_statements("-- only a comment; really"), Vec::<String>::new());
}

#[test]
fn the_last_statement_needs_no_semicolon() {
    assert_eq!(split_sql_statements("SELECT 1;\nSELECT 2"), vec!["SELECT 1", "SELECT 2"]);
}

#[test]
fn a_semicolon_in_a_block_does_not_end_a_statement() {
    let sql = "DO $body$ BEGIN; END $body$; SELECT 1;";
    assert_eq!(
        split_sql_statements(sql),
        vec!["DO $body$ BEGIN; END $body$".to_owned(), "SELECT 1".to_owned()]
    );
}

#[test]
fn statements_are_read_from_the_script_in_its_order() {
    let sql = "a /* one */ b; -- two\n c $x$ ; d $x$ e ;; f";
    let read: Vec<char> = split_sql_statements(sql).concat().chars().collect();
    let mut next = 0;
    for c in sql.chars() {
        if next < read.len() && read[next] == c {
            next += 1;
        }
    }
    assert_eq!(next, read.len());
    assert_eq!(split_sql_statements(sql), vec!["a  b", "c $x$ ; d $x$ e", "f"]);
}

#[test]
fn joined_scripts_have_the_statements_of_both() {
    let first = "CREATE TABLE a (id INT); -- a\nINSERT INTO a VALUES (1)";
    let second = "DO $$ BEGIN; END $$; /* b */ SELECT 2";
    let joined = format!("{};{}", first, second);
    let mut both = split_sql_statements(first);
    both.extend(split_sql_statements(second));
    assert_eq!(split_sql_statements(&joined), both);
    assert_eq!(both.len(), 4);
}

#[test]
fn an_open_comment_takes_in_what_is_joined_to_it() {
    assert_eq!(split_sql_statements("SELECT 1 -- one;SELECT 2"), vec!["SELECT 1"]);
}
