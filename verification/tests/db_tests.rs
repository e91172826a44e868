use voting_machine::db::{initialize_db_at, register_voter, is_voter_registered, record_vote, has_voted};
use voting_machine::sql::VotingDb;

// Helper function to create an in-memory database for testing
fn create_test_connection() -> VotingDb {
    let conn = initialize_db_at(":memory:").unwrap();
    conn
}

#[test]
fn test_initialize_db() {
    let conn = create_test_connection();
    assert!(conn.connection().is_autocommit(), "Database should initialize correctly with autocommit mode.");
}

#[test]
fn test_register_voter() {
    let mut conn = create_test_connection();
    let name = "John Doe";
    let dob = "01/01/1990";

    register_voter(&mut conn, name, dob).unwrap();
    let exists = is_voter_registered(&mut conn, name, dob).unwrap();
    assert!(exists, "Voter should be registered successfully.");
}

#[test]
fn test_register_duplicate_voter() {
    let mut conn = create_test_connection();
    let name = "Jane Doe";
    let dob = "02/02/1992";

    register_voter(&mut conn, name, dob).unwrap();
    let result = register_voter(&mut conn, name, dob);
    assert!(result.is_ok(), "Duplicate registration should not cause an error.");
}

#[test]
fn test_has_voted() {
    let mut conn = create_test_connection();
    let voter_name = "John Doe";
    let voter_dob = "01/01/1990";
    let office_name = "President";

    register_voter(&mut conn, voter_name, voter_dob).unwrap();
    conn.connection().execute("INSERT INTO offices (name) VALUES (?1)", (office_name,)).unwrap();

    let voter_id = conn
        .connection()
        .query_row("SELECT id FROM voters WHERE name = ?1", (voter_name,), |row| row.get(0))
        .unwrap();
    let office_id = conn
        .connection()
        .query_row("SELECT id FROM offices WHERE name = ?1", (office_name,), |row| row.get(0))
        .unwrap();

    record_vote(&mut conn, voter_id, office_id).unwrap();

    // Set promo_eligible to false (default case)
    let already_voted = has_voted(&mut conn, voter_id, office_id, false).unwrap();
    assert!(already_voted, "Voter should be marked as having voted.");
}
