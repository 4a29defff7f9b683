use coffee_server::db::{schema_sql, Nanoid};
use coffee_server::methods::require_found;
use sqlx::Connection;

#[test]
fn fresh_identifiers_have_twenty_one_characters() {
    let id = Nanoid::new();
    assert_eq!(id.as_str().chars().count(), 21);
    let other = Nanoid::new();
    assert_eq!(other.as_str().chars().count(), 21);
}

#[test]
fn stored_identifier_text_round_trips() {
    let id = Nanoid::from_string("abc123".to_string());
    assert_eq!(id.as_str(), "abc123");
}

#[test]
fn found_row_yields_its_identifier() {
    assert_eq!(require_found(Some("id-1".to_string())), Ok("id-1".to_string()));
}

#[test]
fn missing_row_yields_the_not_found_failure() {
    let err = require_found(None).unwrap_err();
    assert_eq!(err.message, "No coffee found");
}

#[test]
fn schema_definition_is_guarded() {
    assert!(schema_sql().starts_with("CREATE TABLE IF NOT EXISTS coffees"));
}

#[test]
fn schema_init_is_idempotent() {
    let rt = tokio::runtime::Builder::new_current_thread()
        .enable_all()
        .build()
        .unwrap();
    let mut conn = rt
        .block_on(sqlx::sqlite::SqliteConnection::connect("sqlite::memory:"))
        .unwrap();
    // Running the schema definition twice against the same store must
    // neither fail nor duplicate structures.
    rt.block_on(sqlx::query(schema_sql()).execute(&mut conn)).unwrap();
    rt.block_on(sqlx::query(schema_sql()).execute(&mut conn)).unwrap();
    let tables: (i64,) = rt
        .block_on(
            sqlx::query_as(
                "SELECT COUNT(*) FROM sqlite_master WHERE type = 'table' AND name = 'coffees'",
            )
            .fetch_one(&mut conn),
        )
        .unwrap();
    assert_eq!(tables.0, 1);
}
