use voting_machine::db::{
    initialize_db_at, register_voter, register_after_count, registration_for_count, Registration,
    is_voter_registered, has_voted, record_vote, get_voter_id, get_office_id, get_voter_birth_year,
    birth_year_from_text, DbError, insert_office, insert_candidate, office_count, office_names,
    candidate_names, cast_vote, cast_vote_by_id, tally_votes, delete_voter, delete_candidate,
    delete_office, readable_values, first_columns, tally_rows, begin_transaction,
    commit_transaction, rollback_transaction,
};
use voting_machine::sql::VotingDb;
use voting_machine::{check_voter, voter_check_from, VoterCheck};

fn memory_db() -> VotingDb {
    initialize_db_at(":memory:").unwrap()
}

fn votes_of(db: &VotingDb, candidate: &str) -> i32 {
    db.connection()
        .query_row("SELECT votes FROM candidates WHERE name = ?1", (candidate,), |row| row.get(0))
        .unwrap()
}

fn count(db: &VotingDb, sql: &str) -> i32 {
    db.connection().query_row(sql, (), |row| row.get(0)).unwrap()
}

#[test]
fn registration_decision_from_count() {
    assert_eq!(registration_for_count(0), Registration::Registered);
    assert_eq!(registration_for_count(-1), Registration::Registered);
    assert_eq!(registration_for_count(1), Registration::AlreadyRegistered);
    assert_eq!(registration_for_count(7), Registration::AlreadyRegistered);
}

#[test]
fn duplicate_registration_ignores_letter_case() {
    let mut db = memory_db();
    assert_eq!(register_voter(&mut db, "Ann Lee", "03/04/1980").unwrap(), Registration::Registered);
    assert_eq!(register_voter(&mut db, "ann LEE", "03/04/1980").unwrap(), Registration::AlreadyRegistered);
    assert_eq!(register_voter(&mut db, "Ann Lee", "03/05/1980").unwrap(), Registration::Registered);
    assert_eq!(count(&db, "SELECT COUNT(*) FROM voters"), 2);
}

#[test]
fn counted_voter_is_not_written_again() {
    let mut db = memory_db();
    assert_eq!(register_after_count(&mut db, "Bo Chen", "01/01/1970", 1).unwrap(), Registration::AlreadyRegistered);
    assert!(!is_voter_registered(&mut db, "Bo Chen", "01/01/1970").unwrap());
    assert_eq!(register_after_count(&mut db, "Bo Chen", "01/01/1970", 0).unwrap(), Registration::Registered);
    assert!(is_voter_registered(&mut db, "Bo Chen", "01/01/1970").unwrap());
}

#[test]
fn a_recorded_vote_is_reported_whatever_the_flag() {
    let mut db = memory_db();
    register_voter(&mut db, "Cy Dee", "01/01/1990").unwrap();
    insert_office(&mut db, "Judge").unwrap();
    let voter_id = get_voter_id(&mut db, "Cy Dee").unwrap();
    let office_id = get_office_id(&mut db, "Judge").unwrap();
    assert!(!has_voted(&mut db, voter_id, office_id, false).unwrap());
    record_vote(&mut db, voter_id, office_id).unwrap();
    assert!(has_voted(&mut db, voter_id, office_id, false).unwrap());
    assert!(has_voted(&mut db, voter_id, office_id, true).unwrap());
}

#[test]
fn birth_year_is_read_from_the_date() {
    assert!(matches!(birth_year_from_text("12/25/1990"), Ok(1990)));
    assert!(matches!(birth_year_from_text("1/2/2003"), Ok(2003)));
    assert!(matches!(birth_year_from_text("1990-12-25"), Err(DbError::InvalidQuery)));
    assert!(matches!(birth_year_from_text("02/30/2001"), Err(DbError::InvalidQuery)));
    let mut db = memory_db();
    register_voter(&mut db, "Di Eve", "07/04/1976").unwrap();
    register_voter(&mut db, "Ed Fox", "not a date").unwrap();
    let di = get_voter_id(&mut db, "Di Eve").unwrap();
    let ed = get_voter_id(&mut db, "Ed Fox").unwrap();
    assert!(matches!(get_voter_birth_year(&mut db, di), Ok(1976)));
    assert!(matches!(get_voter_birth_year(&mut db, ed), Err(DbError::InvalidQuery)));
    assert!(matches!(get_voter_birth_year(&mut db, 9999), Err(DbError::Sqlite(_))));
}

#[test]
fn register_answers_become_checks() {
    assert!(matches!(voter_check_from(Ok(true)), VoterCheck::Verified));
    assert!(matches!(voter_check_from(Ok(false)), VoterCheck::NotRegistered));
    assert!(matches!(voter_check_from(Err(DbError::InvalidQuery)), VoterCheck::Failed(DbError::InvalidQuery)));
    let mut db = memory_db();
    register_voter(&mut db, "Fay Gu", "05/05/1985").unwrap();
    assert!(matches!(check_voter(&mut db, "Fay Gu", "05/05/1985"), VoterCheck::Verified));
    assert!(matches!(check_voter(&mut db, "Fay Gu", "5/5/1985"), VoterCheck::NotRegistered));
    assert!(matches!(check_voter(&mut db, "Fay Gu", "05/06/1985"), VoterCheck::NotRegistered));
    assert!(matches!(check_voter(&mut db, "Fay Gu", "1985-05-05"), VoterCheck::InvalidDate));
}

#[test]
fn offices_candidates_and_tally() {
    let mut db = memory_db();
    insert_office(&mut db, "President").unwrap();
    insert_office(&mut db, "Mayor").unwrap();
    assert_eq!(office_count(&mut db, "president").unwrap(), 1);
    assert_eq!(office_count(&mut db, "Judge").unwrap(), 0);
    assert!(insert_office(&mut db, "Mayor").is_err());
    insert_candidate(&mut db, "Ada", "Blue", "President").unwrap();
    insert_candidate(&mut db, "Bob", "Red", "President").unwrap();
    insert_candidate(&mut db, "Cat", "Green", "Mayor").unwrap();
    assert_eq!(office_names(&mut db).unwrap(), vec!["President".to_string(), "Mayor".to_string()]);
    assert_eq!(candidate_names(&mut db, "President").unwrap(), vec!["Ada".to_string(), "Bob".to_string()]);
    assert!(candidate_names(&mut db, "Judge").unwrap().is_empty());

    cast_vote(&mut db, "Bob").unwrap();
    cast_vote(&mut db, "Bob").unwrap();
    let ada_id = count(&db, "SELECT id FROM candidates WHERE name = 'Ada'");
    cast_vote_by_id(&mut db, ada_id).unwrap();
    assert_eq!(votes_of(&db, "Bob"), 2);
    assert_eq!(votes_of(&db, "Ada"), 1);

    let rows: Vec<_> = tally_votes(&mut db).unwrap().into_iter().map(|r| r.unwrap()).collect();
    assert_eq!(rows.len(), 3);
    assert_eq!((rows[0].office.as_str(), rows[0].candidate.as_str(), rows[0].votes), ("Mayor", "Cat", 0));
    assert_eq!((rows[1].office.as_str(), rows[1].candidate.as_str(), rows[1].party.as_str(), rows[1].votes), ("President", "Bob", "Red", 2));
    assert_eq!((rows[2].office.as_str(), rows[2].candidate.as_str(), rows[2].votes), ("President", "Ada", 1));
}

#[test]
fn deletions_report_counts() {
    let mut db = memory_db();
    register_voter(&mut db, "Gil Ho", "01/01/1960").unwrap();
    insert_office(&mut db, "Mayor").unwrap();
    insert_candidate(&mut db, "Ada", "Blue", "Mayor").unwrap();
    insert_candidate(&mut db, "Bob", "Red", "Mayor").unwrap();
    assert_eq!(delete_voter(&mut db, "gil ho").unwrap(), 1);
    assert_eq!(delete_voter(&mut db, "gil ho").unwrap(), 0);
    assert_eq!(delete_candidate(&mut db, "ada", "mayor").unwrap(), 1);
    let (candidates, offices) = delete_office(&mut db, "mayor");
    assert_eq!(candidates.unwrap(), 1);
    assert_eq!(offices.unwrap(), 1);
    assert!(office_names(&mut db).unwrap().is_empty());
}

#[test]
fn transactions_commit_or_roll_back() {
    let mut db = memory_db();
    begin_transaction(&mut db).unwrap();
    insert_office(&mut db, "Mayor").unwrap();
    rollback_transaction(&mut db).unwrap();
    assert!(office_names(&mut db).unwrap().is_empty());
    begin_transaction(&mut db).unwrap();
    insert_office(&mut db, "Judge").unwrap();
    commit_transaction(&mut db).unwrap();
    assert_eq!(office_names(&mut db).unwrap(), vec!["Judge".to_string()]);
    assert!(db.connection().is_autocommit());
}

#[test]
fn unreadable_rows_are_left_out() {
    let rows: Vec<Result<(String,), rusqlite::Error>> = vec![
        Ok(("a".to_string(),)),
        Err(rusqlite::Error::InvalidQuery),
        Ok(("b".to_string(),)),
    ];
    assert_eq!(first_columns(readable_values(rows)), vec!["a".to_string(), "b".to_string()]);
}

#[test]
fn tally_rows_keep_order_and_errors() {
    let rows = vec![
        Ok(("Mayor".to_string(), "Ada".to_string(), "Blue".to_string(), 4)),
        Err(rusqlite::Error::InvalidQuery),
        Ok(("Judge".to_string(), "Bob".to_string(), "Red".to_string(), 0)),
    ];
    let lines = tally_rows(rows);
    assert_eq!(lines.len(), 3);
    let first = lines[0].as_ref().unwrap();
    assert_eq!((first.office.as_str(), first.candidate.as_str(), first.party.as_str(), first.votes), ("Mayor", "Ada", "Blue", 4));
    assert!(matches!(lines[1], Err(DbError::Sqlite(rusqlite::Error::InvalidQuery))));
    assert_eq!(lines[2].as_ref().unwrap().candidate, "Bob");
}
