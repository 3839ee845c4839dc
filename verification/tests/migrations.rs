use cairn_store::script::split_sql_statements;

#[test]
fn simple_statements_are_split() {
    let sql = "CREATE TABLE a (id INT); CREATE TABLE b (id INT);";
    let stmts = split_sql_statements(sql);
    assert_eq!(stmts.len(), 2);
    assert!(stmts[0].starts_with("CREATE TABLE a"));
    assert!(stmts[1].starts_with("CREATE TABLE b"));
}

#[test]
fn dollar_quoted_function_is_not_split() {
    let sql = r#"
CREATE OR REPLACE FUNCTION tsv_trigger() RETURNS trigger AS $$
BEGIN
    NEW.tsv := to_tsvector('english', NEW.text);
    RETURN NEW;
END;
$$ LANGUAGE plpgsql;

CREATE TRIGGER trg BEFORE INSERT ON chunks FOR EACH ROW EXECUTE FUNCTION tsv_trigger();
"#;
    let stmts = split_sql_statements(sql);
    // Should be exactly 2: the function and the trigger.
    assert_eq!(stmts.len(), 2, "got: {stmts:?}");
    assert!(
        stmts[0].contains("LANGUAGE plpgsql"),
        "first stmt: {}",
        stmts[0]
    );
    assert!(
        stmts[1].contains("CREATE TRIGGER"),
        "second stmt: {}",
        stmts[1]
    );
}

#[test]
fn single_line_comments_are_handled() {
    let sql = "-- comment\nCREATE TABLE a (id INT); -- trailing\nCREATE TABLE b (id INT);";
    let stmts = split_sql_statements(sql);
    assert_eq!(stmts.len(), 2);
}

#[test]
fn empty_input_returns_empty() {
    assert!(split_sql_statements("").is_empty());
    assert!(split_sql_statements("   -- just a comment\n   ").is_empty());
}

#[test]
fn v014_migration_splits_into_four_statements() {
    // A full-text migration: ALTER TABLE, CREATE INDEX, CREATE FUNCTION, CREATE TRIGGER.
    let sql = r#"
-- Full-text search over chunks.
ALTER TABLE chunks ADD COLUMN IF NOT EXISTS tsv tsvector;

CREATE INDEX IF NOT EXISTS idx_chunks_tsv ON chunks USING GIN (tsv);

-- Keeps the vector up to date.
CREATE OR REPLACE FUNCTION chunks_tsv_update() RETURNS trigger AS $$
BEGIN
    NEW.tsv := to_tsvector('english', COALESCE(NEW.text, ''));
    RETURN NEW;
END;
$$ LANGUAGE plpgsql;

CREATE TRIGGER trg_chunks_tsv
    BEFORE INSERT OR UPDATE ON chunks
    FOR EACH ROW EXECUTE FUNCTION chunks_tsv_update();
"#;
    let stmts = split_sql_statements(sql);
    assert_eq!(
        stmts.len(),
        4,
        "expected 4 statements, got {}: {stmts:?}",
        stmts.len()
    );
}
