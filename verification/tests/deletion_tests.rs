use voting_machine::db::{initialize_db_at, register_voter, insert_office, insert_candidate, office_names};
use voting_machine::session::{cancels, delete_voter_request, delete_candidate_request, delete_office_request};
use voting_machine::sql::VotingDb;
use voting_machine::verify_voter;

fn memory_db() -> VotingDb {
    initialize_db_at(":memory:").unwrap()
}

fn voter_count(db: &VotingDb) -> i32 {
    db.connection().query_row("SELECT COUNT(*) FROM voters", (), |row| row.get(0)).unwrap()
}

fn candidate_count(db: &VotingDb) -> i32 {
    db.connection().query_row("SELECT COUNT(*) FROM candidates", (), |row| row.get(0)).unwrap()
}

#[test]
fn exit_in_any_case_cancels() {
    assert!(cancels("exit"));
    assert!(cancels("EXIT"));
    assert!(cancels("Exit"));
    assert!(!cancels("exits"));
    assert!(!cancels("no"));
}

#[test]
fn deleting_a_voter_named_exit_is_cancelled() {
    let mut db = memory_db();
    register_voter(&mut db, "exit", "01/01/1970").unwrap();
    register_voter(&mut db, "ana", "01/01/1970").unwrap();
    assert!(delete_voter_request(&mut db, "EXIT").is_none());
    assert_eq!(voter_count(&db), 2);
    assert!(matches!(delete_voter_request(&mut db, "ana"), Some(Ok(1))));
    assert!(matches!(delete_voter_request(&mut db, "nobody"), Some(Ok(0))));
    assert_eq!(voter_count(&db), 1);
}

#[test]
fn deleting_a_candidate_can_be_cancelled() {
    let mut db = memory_db();
    insert_office(&mut db, "mayor").unwrap();
    insert_candidate(&mut db, "bo", "green", "mayor").unwrap();
    assert!(delete_candidate_request(&mut db, "exit", "mayor").is_none());
    assert!(delete_candidate_request(&mut db, "bo", "Exit").is_none());
    assert_eq!(candidate_count(&db), 1);
    assert!(matches!(delete_candidate_request(&mut db, "bo", "mayor"), Some(Ok(1))));
    assert_eq!(candidate_count(&db), 0);
}

#[test]
fn deleting_an_office_can_be_cancelled() {
    let mut db = memory_db();
    insert_office(&mut db, "mayor").unwrap();
    insert_candidate(&mut db, "bo", "green", "mayor").unwrap();
    assert!(delete_office_request(&mut db, "exit").is_none());
    assert_eq!(office_names(&mut db).unwrap(), vec!["mayor".to_string()]);
    match delete_office_request(&mut db, "mayor") {
        Some((Ok(candidates), Ok(offices))) => {
            assert_eq!(candidates, 1);
            assert_eq!(offices, 1);
        }
        _ => panic!("the office should be deleted"),
    }
    assert!(office_names(&mut db).unwrap().is_empty());
}

#[test]
fn verify_voter_uses_the_date_as_typed() {
    let mut db = memory_db();
    register_voter(&mut db, "Jane Doe", "02/02/1990").unwrap();
    assert!(verify_voter(&mut db, "Jane Doe", "02/02/1990"));
    assert!(!verify_voter(&mut db, "Jane Doe", "2/2/1990"));
    assert!(!verify_voter(&mut db, "Jane Doe", "1990-02-02"));
}
