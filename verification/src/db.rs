//! The voter register and the election tables, kept in an SQLite database.
//!
//! Every function here sends fixed SQL to the database through a `VotingDb`
//! and hands back what it answered. What the database answers depends on
//! what is stored in it, so the contracts state, over the record of what was
//! sent (`VotingDb::sent`), which statements each function sends with which
//! arguments, which answers lead to which further statements, and what is
//! returned for each answer.

use vstd::prelude::*;
use crate::sql::{
    VotingDb, SqlEvent, SqlReply, SqlValue, open_database, execute_sql, query_value, query_rows,
};
use crate::dates::{parse_date, parsed_date, birth_date_format};

verus! {

pub const CREATE_VOTERS_SQL: &'static str = "CREATE TABLE IF NOT EXISTS voters (
             id INTEGER PRIMARY KEY AUTOINCREMENT,
             name TEXT NOT NULL,
             date_of_birth TEXT NOT NULL,
             has_voted BOOLEAN NOT NULL DEFAULT 0,
             UNIQUE(name, date_of_birth)
         )";
pub const CREATE_OFFICES_SQL: &'static str = "CREATE TABLE IF NOT EXISTS offices (
        id INTEGER PRIMARY KEY,
        name TEXT NOT NULL UNIQUE
         )";
pub const CREATE_CANDIDATES_SQL: &'static str = "CREATE TABLE IF NOT EXISTS candidates (
             id INTEGER PRIMARY KEY,
             name TEXT NOT NULL,
             party TEXT NOT NULL,
             votes INTEGER NOT NULL DEFAULT 0,
             office_id INTEGER,
             FOREIGN KEY(office_id) REFERENCES offices(id)
         )";
pub const CREATE_VOTES_SQL: &'static str = "CREATE TABLE IF NOT EXISTS votes (
         id INTEGER PRIMARY KEY,
         voter_id INTEGER,
         office_id INTEGER,
         FOREIGN KEY(voter_id) REFERENCES voters(id),
         FOREIGN KEY(office_id) REFERENCES offices(id)
     )";
pub const COUNT_VOTERS_SQL: &'static str = "SELECT COUNT(*) FROM voters WHERE name = ?1 COLLATE NOCASE AND date_of_birth = ?2";
pub const INSERT_VOTER_SQL: &'static str = "INSERT INTO voters (name, date_of_birth, has_voted) VALUES (?1, ?2, ?3)";
pub const VOTER_EXISTS_SQL: &'static str = "SELECT EXISTS(SELECT 1 FROM voters WHERE name = ?1 AND date_of_birth = ?2)";
pub const CAST_VOTE_SQL: &'static str = "UPDATE candidates SET votes = votes + 1 WHERE name = ?1";
pub const CAST_VOTE_BY_ID_SQL: &'static str = "UPDATE candidates SET votes = votes + 1 WHERE id = ?1";
pub const HAS_VOTED_SQL: &'static str = "SELECT EXISTS(SELECT 1 FROM votes WHERE voter_id = ?1 AND office_id = ?2)";
pub const RECORD_VOTE_SQL: &'static str = "INSERT INTO votes (voter_id, office_id) VALUES (?1, ?2)";
pub const VOTER_BIRTH_DATE_SQL: &'static str = "SELECT date_of_birth FROM voters WHERE id = ?1";
pub const VOTER_ID_SQL: &'static str = "SELECT id FROM voters WHERE name = ?1";
pub const OFFICE_ID_SQL: &'static str = "SELECT id FROM offices WHERE name = ?1";
pub const OFFICE_NAMES_SQL: &'static str = "SELECT name FROM offices";
pub const CANDIDATE_NAMES_SQL: &'static str = "SELECT name FROM candidates WHERE office_id = (SELECT id FROM offices WHERE name = ?)";
pub const TALLY_SQL: &'static str = "SELECT o.name AS office_name, c.name AS candidate_name, c.party, c.votes 
         FROM offices o 
         JOIN candidates c ON c.office_id = o.id 
         ORDER BY o.name, c.votes DESC";
pub const OFFICE_COUNT_SQL: &'static str = "SELECT COUNT(*) FROM offices WHERE name = ?1 COLLATE NOCASE";
pub const INSERT_OFFICE_SQL: &'static str = "INSERT INTO offices (name) VALUES (?1)";
pub const INSERT_CANDIDATE_SQL: &'static str = "INSERT INTO candidates (name, party, office_id) VALUES (?1, ?2, (SELECT id FROM offices WHERE name = ?3))";
pub const DELETE_VOTER_SQL: &'static str = "DELETE FROM voters WHERE LOWER(name) = ?1";
pub const DELETE_CANDIDATE_SQL: &'static str = "DELETE FROM candidates WHERE LOWER(name) = ?1 AND office_id = (SELECT id FROM offices WHERE LOWER(name) = ?2)";
pub const DELETE_OFFICE_CANDIDATES_SQL: &'static str = "DELETE FROM candidates WHERE office_id = (SELECT id FROM offices WHERE LOWER(name) = ?1)";
pub const DELETE_OFFICE_SQL: &'static str = "DELETE FROM offices WHERE LOWER(name) = ?1";
pub const BEGIN_SQL: &'static str = "BEGIN DEFERRED";
pub const COMMIT_SQL: &'static str = "COMMIT";
pub const ROLLBACK_SQL: &'static str = "ROLLBACK";

/// A voter as stored in the register.
pub struct Voter {
    pub id: i32,
    pub name: String,
    pub date_of_birth: String,
    pub has_voted: bool,
}

/// Why a request to the database failed.
#[derive(Debug)]
pub enum DbError {
    /// SQLite or `rusqlite` reported an error.
    Sqlite(rusqlite::Error),
    /// A date of birth stored in the register is not a date in the
    /// `MM/DD/YYYY` form.
    InvalidQuery,
}

/// A failure, if any, is one that SQLite or `rusqlite` reported.
pub open spec fn sqlite_failure<T>(r: Result<T, DbError>) -> bool {
    r matches Err(e) ==> e is Sqlite
}

/// `after` is `before` followed by one statement, `sql` with `args`.
pub open spec fn one_more(before: Seq<SqlEvent>, after: Seq<SqlEvent>, sql: Seq<char>, args: Seq<SqlValue>) -> bool {
    &&& after.len() > 0
    &&& after == before.push(SqlEvent { sql, args, reply: after.last().reply })
}

/// What a statement that changes the database returns for SQLite's answer:
/// the number of rows changed, or the failure.
pub open spec fn changed_result(reply: SqlReply, r: Result<usize, DbError>) -> bool {
    match reply {
        SqlReply::Changed(Some(n)) => r matches Ok(m) && m == n,
        SqlReply::Changed(None) => r matches Err(DbError::Sqlite(_)),
        _ => false,
    }
}

/// What a statement that changes the database returns when the number of
/// rows changed is not handed on.
pub open spec fn done_result(reply: SqlReply, r: Result<(), DbError>) -> bool {
    match reply {
        SqlReply::Changed(Some(_)) => r is Ok,
        SqlReply::Changed(None) => r matches Err(DbError::Sqlite(_)),
        _ => false,
    }
}

/// What a query for a truth value returns for SQLite's answer.
pub open spec fn bool_result(reply: SqlReply, r: Result<bool, DbError>) -> bool {
    match reply {
        SqlReply::Value(Some(SqlValue::Bool(b))) => r matches Ok(x) && x == b,
        SqlReply::Value(None) => r matches Err(DbError::Sqlite(_)),
        _ => false,
    }
}

/// What a query for a number returns for SQLite's answer.
pub open spec fn int_result(reply: SqlReply, r: Result<i32, DbError>) -> bool {
    match reply {
        SqlReply::Value(Some(SqlValue::Int(n))) => r matches Ok(x) && x == n,
        SqlReply::Value(None) => r matches Err(DbError::Sqlite(_)),
        _ => false,
    }
}

/// The record of a database just opened: the four tables created, each
/// statement answered without failure.
pub open spec fn tables_created(s: Seq<SqlEvent>) -> bool {
    &&& s.len() == 4
    &&& s[0].sql == CREATE_VOTERS_SQL@
    &&& s[1].sql == CREATE_OFFICES_SQL@
    &&& s[2].sql == CREATE_CANDIDATES_SQL@
    &&& s[3].sql == CREATE_VOTES_SQL@
    &&& forall|i: int| 0 <= i < 4 ==> (#[trigger] s[i]).args == Seq::<SqlValue>::empty() && s[i].reply matches SqlReply::Changed(Some(_))
}

/// What a registration did.
#[derive(Debug, Clone, Copy, PartialEq, Eq)]
pub enum Registration {
    /// The voter was added to the register.
    Registered,
    /// A voter with this name (in any letter case) and date of birth was
    /// already registered; the register was left as it was.
    AlreadyRegistered,
}

/// Decides a registration from the number of voters who already carry the
/// same name and date of birth: a new voter is added only where there is
/// none.
pub fn registration_for_count(existing: i32) -> (r: Registration)
    ensures
        r == (if existing > 0 { Registration::AlreadyRegistered } else { Registration::Registered }),
{
    if existing > 0 {
        Registration::AlreadyRegistered
    } else {
        Registration::Registered
    }
}

/// What is sent once the voters who carry the name and date of birth have
/// been counted at `count`: nothing where there is one, else the insertion
/// of the voter, not having voted; and what is returned.
pub open spec fn insertion_logged(
    before: Seq<SqlEvent>,
    after: Seq<SqlEvent>,
    name: Seq<char>,
    dob: Seq<char>,
    count: int,
    r: Result<Registration, DbError>,
) -> bool {
    if count > 0 {
        after == before && r matches Ok(Registration::AlreadyRegistered)
    } else {
        &&& one_more(before, after, INSERT_VOTER_SQL@, seq![SqlValue::Text(name), SqlValue::Text(dob), SqlValue::Bool(false)])
        &&& match after.last().reply {
            SqlReply::Changed(Some(_)) => r matches Ok(Registration::Registered),
            _ => r matches Err(DbError::Sqlite(_)),
        }
    }
}

/// What a registration sends: the count of the voters who carry the name
/// (in any letter case) and the date of birth; then, on the count, what
/// `insertion_logged` says. A failed count sends nothing more.
pub open spec fn registration_logged(
    before: Seq<SqlEvent>,
    after: Seq<SqlEvent>,
    name: Seq<char>,
    dob: Seq<char>,
    r: Result<Registration, DbError>,
) -> bool {
    after.len() > before.len() && {
        let counted = after.subrange(0, before.len() + 1 as int);
        &&& one_more(before, counted, COUNT_VOTERS_SQL@, seq![SqlValue::Text(name), SqlValue::Text(dob)])
        &&& match counted.last().reply {
            SqlReply::Value(Some(SqlValue::Int(n))) => insertion_logged(counted, after, name, dob, n, r),
            _ => after == counted && r matches Err(DbError::Sqlite(_)),
        }
    }
}

/// The file that holds the voting machine's database.
pub const DATABASE_FILE: &'static str = "voting_machine.db";

/// Opens the voting machine's database, the file `voting_machine.db`, and
/// creates its tables where they do not exist yet.
pub fn initialize_db() -> (r: Result<VotingDb, DbError>)
    ensures
        sqlite_failure(r),
        r matches Ok(db) ==> db.opened_at() == DATABASE_FILE@ && tables_created(db.sent()),
{
    initialize_db_at(DATABASE_FILE)
}

/// Runs one statement that changes the database, and maps its failure.
fn run(db: &mut VotingDb, sql: &str) -> (r: Result<(), DbError>)
    ensures
        final(db).opened_at() == old(db).opened_at(),
        one_more(old(db).sent(), final(db).sent(), sql@, Seq::empty()),
        done_result(final(db).sent().last().reply, r),
{
    let r = execute_sql(db, sql, ());
    match r {
        Ok(_) => Ok(()),
        Err(e) => Err(DbError::Sqlite(e)),
    }
}

/// Opens the database at `path` (SQLite reads `:memory:` as a database held
/// in memory) and creates the tables of voters, offices, candidates and
/// votes where they do not exist yet.
pub fn initialize_db_at(path: &str) -> (r: Result<VotingDb, DbError>)
    ensures
        sqlite_failure(r),
        r matches Ok(db) ==> db.opened_at() == path@ && tables_created(db.sent()),
{
    let mut db = match open_database(path) {
        Ok(db) => db,
        Err(e) => return Err(DbError::Sqlite(e)),
    };
    if let Err(e) = run(&mut db, CREATE_VOTERS_SQL) {
        return Err(e);
    }
    if let Err(e) = run(&mut db, CREATE_OFFICES_SQL) {
        return Err(e);
    }
    if let Err(e) = run(&mut db, CREATE_CANDIDATES_SQL) {
        return Err(e);
    }
    if let Err(e) = run(&mut db, CREATE_VOTES_SQL) {
        return Err(e);
    }
    Ok(db)
}

/// Registers a new voter under `name` and `date_of_birth`, unless a voter
/// with the same name (compared without regard to letter case) and date of
/// birth is already registered: what is sent and returned is
/// `registration_logged`.
pub fn register_voter(db: &mut VotingDb, name: &str, date_of_birth: &str) -> (r: Result<Registration, DbError>)
    ensures
        registration_logged(old(db).sent(), final(db).sent(), name@, date_of_birth@, r),
{
    let ghost before = db.sent();
    let counted = query_value::<i32, (&str, &str)>(db, COUNT_VOTERS_SQL, (name, date_of_birth));
    let ghost mid = db.sent();
    let existing = match counted {
        Ok(n) => n,
        Err(e) => {
            assert(db.sent().subrange(0, before.len() + 1 as int) =~= db.sent());
            return Err(DbError::Sqlite(e));
        },
    };
    let r = register_after_count(db, name, date_of_birth, existing);
    assert(db.sent().subrange(0, before.len() + 1 as int) =~= mid);
    r
}

/// Completes a registration once the register has counted the voters who
/// carry the same name and date of birth: where there is one, nothing is
/// sent and the voter counts as already registered; where there is none,
/// the voter is inserted, not having voted.
pub fn register_after_count(db: &mut VotingDb, name: &str, date_of_birth: &str, existing: i32) -> (r: Result<Registration, DbError>)
    ensures
        insertion_logged(old(db).sent(), final(db).sent(), name@, date_of_birth@, existing as int, r),
{
    match registration_for_count(existing) {
        Registration::AlreadyRegistered => Ok(Registration::AlreadyRegistered),
        Registration::Registered => {
            match execute_sql(db, INSERT_VOTER_SQL, (name, date_of_birth, false)) {
                Ok(_) => Ok(Registration::Registered),
                Err(e) => Err(DbError::Sqlite(e)),
            }
        },
    }
}

/// Asks whether a voter with exactly this name and date of birth is
/// registered, and returns the answer.
pub fn is_voter_registered(db: &mut VotingDb, name: &str, dob: &str) -> (r: Result<bool, DbError>)
    ensures
        one_more(old(db).sent(), final(db).sent(), VOTER_EXISTS_SQL@, seq![SqlValue::Text(name@), SqlValue::Text(dob@)]),
        bool_result(final(db).sent().last().reply, r),
{
    match query_value::<bool, (&str, &str)>(db, VOTER_EXISTS_SQL, (name, dob)) {
        Ok(b) => Ok(b),
        Err(e) => Err(DbError::Sqlite(e)),
    }
}

/// Adds one vote to every candidate named `candidate_name`.
pub fn cast_vote(db: &mut VotingDb, candidate_name: &str) -> (r: Result<(), DbError>)
    ensures
        one_more(old(db).sent(), final(db).sent(), CAST_VOTE_SQL@, seq![SqlValue::Text(candidate_name@)]),
        done_result(final(db).sent().last().reply, r),
{
    match execute_sql(db, CAST_VOTE_SQL, (candidate_name,)) {
        Ok(_) => Ok(()),
        Err(e) => Err(DbError::Sqlite(e)),
    }
}

/// Adds one vote to the candidate with the given id.
pub fn cast_vote_by_id(db: &mut VotingDb, candidate_id: i32) -> (r: Result<(), DbError>)
    ensures
        one_more(old(db).sent(), final(db).sent(), CAST_VOTE_BY_ID_SQL@, seq![SqlValue::Int(candidate_id as int)]),
        done_result(final(db).sent().last().reply, r),
{
    match execute_sql(db, CAST_VOTE_BY_ID_SQL, (candidate_id,)) {
        Ok(_) => Ok(()),
        Err(e) => Err(DbError::Sqlite(e)),
    }
}

/// Asks whether the voter has voted for the office, and returns the answer.
/// The promotion flag does not lift the rule of one vote per office: the
/// register is asked in any case.
pub fn has_voted(db: &mut VotingDb, voter_id: i32, office_id: i32, promo_eligible: bool) -> (r: Result<bool, DbError>)
    ensures
        one_more(old(db).sent(), final(db).sent(), HAS_VOTED_SQL@, seq![SqlValue::Int(voter_id as int), SqlValue::Int(office_id as int)]),
        bool_result(final(db).sent().last().reply, r),
{
    match query_value::<bool, (i32, i32)>(db, HAS_VOTED_SQL, (voter_id, office_id)) {
        Ok(b) => Ok(b),
        Err(e) => Err(DbError::Sqlite(e)),
    }
}

/// Records that the voter has voted for the office.
pub fn record_vote(db: &mut VotingDb, voter_id: i32, office_id: i32) -> (r: Result<(), DbError>)
    ensures
        one_more(old(db).sent(), final(db).sent(), RECORD_VOTE_SQL@, seq![SqlValue::Int(voter_id as int), SqlValue::Int(office_id as int)]),
        done_result(final(db).sent().last().reply, r),
{
    match execute_sql(db, RECORD_VOTE_SQL, (voter_id, office_id)) {
        Ok(_) => Ok(()),
        Err(e) => Err(DbError::Sqlite(e)),
    }
}

/// The year of a date of birth written `MM/DD/YYYY`; `InvalidQuery` where the
/// text is not such a date.
pub fn birth_year_from_text(date_of_birth: &str) -> (r: Result<i32, DbError>)
    ensures
        match parsed_date(date_of_birth@, birth_date_format()) {
            Some(d) => r matches Ok(y) && y == d.year,
            None => r matches Err(DbError::InvalidQuery),
        },
{
    match parse_date(date_of_birth, "%m/%d/%Y") {
        Some(d) => Ok(d.year),
        None => Err(DbError::InvalidQuery),
    }
}

/// What reading a year of birth returns for the register's answer.
pub open spec fn birth_year_result(reply: SqlReply, r: Result<i32, DbError>) -> bool {
    match reply {
        SqlReply::Value(Some(SqlValue::Text(s))) => match parsed_date(s, birth_date_format()) {
            Some(d) => r matches Ok(y) && y == d.year,
            None => r matches Err(DbError::InvalidQuery),
        },
        SqlReply::Value(None) => r matches Err(DbError::Sqlite(_)),
        _ => false,
    }
}

/// The year of birth of the voter with the given id, read from the date of
/// birth stored in the register.
pub fn get_voter_birth_year(db: &mut VotingDb, voter_id: i32) -> (r: Result<i32, DbError>)
    ensures
        one_more(old(db).sent(), final(db).sent(), VOTER_BIRTH_DATE_SQL@, seq![SqlValue::Int(voter_id as int)]),
        birth_year_result(final(db).sent().last().reply, r),
{
    let date_of_birth: String = match query_value::<String, (i32,)>(db, VOTER_BIRTH_DATE_SQL, (voter_id,)) {
        Ok(s) => s,
        Err(e) => return Err(DbError::Sqlite(e)),
    };
    birth_year_from_text(date_of_birth.as_str())
}

/// The id of the (first) voter called `name`.
pub fn get_voter_id(db: &mut VotingDb, name: &str) -> (r: Result<i32, DbError>)
    ensures
        one_more(old(db).sent(), final(db).sent(), VOTER_ID_SQL@, seq![SqlValue::Text(name@)]),
        int_result(final(db).sent().last().reply, r),
{
    match query_value::<i32, (&str,)>(db, VOTER_ID_SQL, (name,)) {
        Ok(id) => Ok(id),
        Err(e) => Err(DbError::Sqlite(e)),
    }
}

/// The id of the office called `name`.
pub fn get_office_id(db: &mut VotingDb, name: &str) -> (r: Result<i32, DbError>)
    ensures
        one_more(old(db).sent(), final(db).sent(), OFFICE_ID_SQL@, seq![SqlValue::Text(name@)]),
        int_result(final(db).sent().last().reply, r),
{
    match query_value::<i32, (&str,)>(db, OFFICE_ID_SQL, (name,)) {
        Ok(id) => Ok(id),
        Err(e) => Err(DbError::Sqlite(e)),
    }
}

/// The first column, as text, of each row that could be read, in order.
pub open spec fn readable_texts(rows: Seq<Option<Seq<SqlValue>>>) -> Seq<Seq<char>>
    decreases rows.len(),
{
    if rows.len() == 0 {
        Seq::empty()
    } else {
        let front = readable_texts(rows.drop_last());
        match rows.last() {
            Some(vals) => front.push(if vals.len() > 0 && vals[0] is Text { vals[0]->Text_0 } else { Seq::empty() }),
            None => front,
        }
    }
}

/// What a query for names returns for SQLite's answer: the names of the rows
/// that could be read, in order, or the failure.
pub open spec fn names_result(reply: SqlReply, r: Result<Vec<String>, DbError>) -> bool {
    match reply {
        SqlReply::Rows(Some(rows)) => r matches Ok(names) && names@.len() == readable_texts(rows).len()
            && forall|i: int| 0 <= i < names@.len() ==> (#[trigger] names@[i])@ == readable_texts(rows)[i],
        SqlReply::Rows(None) => r matches Err(DbError::Sqlite(_)),
        _ => false,
    }
}

proof fn lemma_readable_texts(rows: Seq<Result<(String,), rusqlite::Error>>, rs: Seq<Option<Seq<SqlValue>>>)
    requires
        rs.len() == rows.len(),
        forall|i: int| 0 <= i < rs.len() ==> rs[i] == crate::sql::row_reply(#[trigger] rows[i]),
    ensures
        readable_texts(rs).len() == ok_values(rows).len(),
        forall|i: int| 0 <= i < ok_values(rows).len() ==> readable_texts(rs)[i] == (#[trigger] ok_values(rows)[i]).0@,
    decreases rows.len(),
{
    if rows.len() > 0 {
        let n = rows.len() - 1;
        assert forall|i: int| 0 <= i < rs.drop_last().len() implies rs.drop_last()[i] == crate::sql::row_reply(#[trigger] rows.drop_last()[i]) by {
            assert(rs[i] == crate::sql::row_reply(rows[i]));
        }
        lemma_readable_texts(rows.drop_last(), rs.drop_last());
        assert(rs[n] == crate::sql::row_reply(rows[n]));
    }
}

/// Reads the names in the first column of the rows of a query.
fn names_of(db: &mut VotingDb, sql: &str, office: Option<&str>) -> (r: Result<Vec<String>, DbError>)
    ensures
        one_more(old(db).sent(), final(db).sent(), sql@, match office {
            Some(o) => seq![SqlValue::Text(o@)],
            None => Seq::empty(),
        }),
        names_result(final(db).sent().last().reply, r),
{
    let answer = match office {
        Some(o) => query_rows::<(String,), (&str,)>(db, sql, (o,)),
        None => query_rows::<(String,), ()>(db, sql, ()),
    };
    match answer {
        Ok(rows) => {
            let ghost all = rows@;
            let kept = readable_values(rows);
            let names = first_columns(kept);
            proof {
                let rs = db.sent().last().reply->Rows_0->Some_0;
                lemma_readable_texts(all, rs);
            }
            Ok(names)
        },
        Err(e) => Err(DbError::Sqlite(e)),
    }
}

/// The names of all offices, in the order in which the database lists
/// them; names that cannot be read are left out.
pub fn office_names(db: &mut VotingDb) -> (r: Result<Vec<String>, DbError>)
    ensures
        one_more(old(db).sent(), final(db).sent(), OFFICE_NAMES_SQL@, Seq::empty()),
        names_result(final(db).sent().last().reply, r),
{
    names_of(db, OFFICE_NAMES_SQL, None)
}

/// The names of the candidates for the office called `office_name`;
/// names that cannot be read are left out.
pub fn candidate_names(db: &mut VotingDb, office_name: &str) -> (r: Result<Vec<String>, DbError>)
    ensures
        one_more(old(db).sent(), final(db).sent(), CANDIDATE_NAMES_SQL@, seq![SqlValue::Text(office_name@)]),
        names_result(final(db).sent().last().reply, r),
{
    names_of(db, CANDIDATE_NAMES_SQL, Some(office_name))
}

/// One line of the election results: a candidate of an office and the votes
/// counted for them.
#[derive(Debug)]
pub struct TallyRow {
    pub office: String,
    pub candidate: String,
    pub party: String,
    pub votes: i32,
}

/// A line of the results stands for the row SQLite answered: the row's four
/// values where it could be read, an SQLite error where not.
pub open spec fn tally_line_matches(row: Option<Seq<SqlValue>>, line: Result<TallyRow, DbError>) -> bool {
    match row {
        Some(vals) => line matches Ok(t) && vals == seq![
            SqlValue::Text(t.office@),
            SqlValue::Text(t.candidate@),
            SqlValue::Text(t.party@),
            SqlValue::Int(t.votes as int),
        ],
        None => line matches Err(DbError::Sqlite(_)),
    }
}

/// What the query of the results returns for SQLite's answer: one line for
/// each row, in order, or the failure.
pub open spec fn tally_result(reply: SqlReply, r: Result<Vec<Result<TallyRow, DbError>>, DbError>) -> bool {
    match reply {
        SqlReply::Rows(Some(rows)) => r matches Ok(lines) && lines@.len() == rows.len()
            && forall|i: int| 0 <= i < rows.len() ==> tally_line_matches(rows[i], #[trigger] lines@[i]),
        SqlReply::Rows(None) => r matches Err(DbError::Sqlite(_)),
        _ => false,
    }
}

/// The election results: for each office (by name) its candidates, most
/// votes first. A row that cannot be read comes back as an error in its
/// place.
pub fn tally_votes(db: &mut VotingDb) -> (r: Result<Vec<Result<TallyRow, DbError>>, DbError>)
    ensures
        one_more(old(db).sent(), final(db).sent(), TALLY_SQL@, Seq::empty()),
        tally_result(final(db).sent().last().reply, r),
{
    match query_rows::<(String, String, String, i32), ()>(db, TALLY_SQL, ()) {
        Ok(rows) => {
            let ghost all = rows@;
            let lines = tally_rows(rows);
            proof {
                let rs = db.sent().last().reply->Rows_0->Some_0;
                assert forall|i: int| 0 <= i < rs.len() implies tally_line_matches(rs[i], #[trigger] lines@[i]) by {
                    assert(rs[i] == crate::sql::row_reply(all[i]));
                    assert(lines@[i] == tally_line(all[i]));
                }
            }
            Ok(lines)
        },
        Err(e) => Err(DbError::Sqlite(e)),
    }
}

/// The number of offices whose name equals `name` regardless of letter case.
pub fn office_count(db: &mut VotingDb, name: &str) -> (r: Result<i32, DbError>)
    ensures
        one_more(old(db).sent(), final(db).sent(), OFFICE_COUNT_SQL@, seq![SqlValue::Text(name@)]),
        int_result(final(db).sent().last().reply, r),
{
    match query_value::<i32, (&str,)>(db, OFFICE_COUNT_SQL, (name,)) {
        Ok(n) => Ok(n),
        Err(e) => Err(DbError::Sqlite(e)),
    }
}

/// Adds an office called `name`.
pub fn insert_office(db: &mut VotingDb, name: &str) -> (r: Result<(), DbError>)
    ensures
        one_more(old(db).sent(), final(db).sent(), INSERT_OFFICE_SQL@, seq![SqlValue::Text(name@)]),
        done_result(final(db).sent().last().reply, r),
{
    match execute_sql(db, INSERT_OFFICE_SQL, (name,)) {
        Ok(_) => Ok(()),
        Err(e) => Err(DbError::Sqlite(e)),
    }
}

/// Adds a candidate of `party` standing for the office called `office_name`.
pub fn insert_candidate(db: &mut VotingDb, name: &str, party: &str, office_name: &str) -> (r: Result<(), DbError>)
    ensures
        one_more(old(db).sent(), final(db).sent(), INSERT_CANDIDATE_SQL@,
            seq![SqlValue::Text(name@), SqlValue::Text(party@), SqlValue::Text(office_name@)]),
        done_result(final(db).sent().last().reply, r),
{
    match execute_sql(db, INSERT_CANDIDATE_SQL, (name, party, office_name)) {
        Ok(_) => Ok(()),
        Err(e) => Err(DbError::Sqlite(e)),
    }
}

/// Deletes the voters whose name, in lower case, is `name`; returns how many.
pub fn delete_voter(db: &mut VotingDb, name: &str) -> (r: Result<usize, DbError>)
    ensures
        one_more(old(db).sent(), final(db).sent(), DELETE_VOTER_SQL@, seq![SqlValue::Text(name@)]),
        changed_result(final(db).sent().last().reply, r),
{
    match execute_sql(db, DELETE_VOTER_SQL, (name,)) {
        Ok(n) => Ok(n),
        Err(e) => Err(DbError::Sqlite(e)),
    }
}

/// Deletes the candidates whose name, in lower case, is `candidate_name` and
/// who stand for the office whose name, in lower case, is `office_name`;
/// returns how many.
pub fn delete_candidate(db: &mut VotingDb, candidate_name: &str, office_name: &str) -> (r: Result<usize, DbError>)
    ensures
        one_more(old(db).sent(), final(db).sent(), DELETE_CANDIDATE_SQL@,
            seq![SqlValue::Text(candidate_name@), SqlValue::Text(office_name@)]),
        changed_result(final(db).sent().last().reply, r),
{
    match execute_sql(db, DELETE_CANDIDATE_SQL, (candidate_name, office_name)) {
        Ok(n) => Ok(n),
        Err(e) => Err(DbError::Sqlite(e)),
    }
}

/// Deletes the office whose name, in lower case, is `office_name`, after its
/// candidates. Returns what each of the two deletions gave: the number of
/// candidates deleted, then the number of offices deleted. The office is
/// deleted even where its candidates could not be.
pub fn delete_office(db: &mut VotingDb, office_name: &str) -> (r: (Result<usize, DbError>, Result<usize, DbError>))
    ensures
        final(db).sent().len() == old(db).sent().len() + 2,
        one_more(old(db).sent(), final(db).sent().drop_last(), DELETE_OFFICE_CANDIDATES_SQL@, seq![SqlValue::Text(office_name@)]),
        changed_result(final(db).sent().drop_last().last().reply, r.0),
        one_more(final(db).sent().drop_last(), final(db).sent(), DELETE_OFFICE_SQL@, seq![SqlValue::Text(office_name@)]),
        changed_result(final(db).sent().last().reply, r.1),
{
    let candidates = match execute_sql(db, DELETE_OFFICE_CANDIDATES_SQL, (office_name,)) {
        Ok(n) => Ok(n),
        Err(e) => Err(DbError::Sqlite(e)),
    };
    let ghost mid = db.sent();
    let offices = match execute_sql(db, DELETE_OFFICE_SQL, (office_name,)) {
        Ok(n) => Ok(n),
        Err(e) => Err(DbError::Sqlite(e)),
    };
    assert(db.sent().drop_last() =~= mid);
    (candidates, offices)
}

/// Starts a transaction: what follows is saved only once it is committed.
pub fn begin_transaction(db: &mut VotingDb) -> (r: Result<(), DbError>)
    ensures
        one_more(old(db).sent(), final(db).sent(), BEGIN_SQL@, Seq::empty()),
        done_result(final(db).sent().last().reply, r),
{
    run(db, BEGIN_SQL)
}

/// Saves what was sent since the transaction started.
pub fn commit_transaction(db: &mut VotingDb) -> (r: Result<(), DbError>)
    ensures
        one_more(old(db).sent(), final(db).sent(), COMMIT_SQL@, Seq::empty()),
        done_result(final(db).sent().last().reply, r),
{
    run(db, COMMIT_SQL)
}

/// Drops what was sent since the transaction started.
pub fn rollback_transaction(db: &mut VotingDb) -> (r: Result<(), DbError>)
    ensures
        one_more(old(db).sent(), final(db).sent(), ROLLBACK_SQL@, Seq::empty()),
        done_result(final(db).sent().last().reply, r),
{
    run(db, ROLLBACK_SQL)
}


/// The values held by the `Ok` entries of `s`, in their order.
pub open spec fn ok_values<T, E>(s: Seq<Result<T, E>>) -> Seq<T>
    decreases s.len(),
{
    if s.len() == 0 {
        Seq::empty()
    } else {
        let front = ok_values(s.drop_last());
        match s.last() {
            Ok(v) => front.push(v),
            Err(_) => front,
        }
    }
}

/// The values of the rows that could be read, in their order; the rows that
/// could not be read are left out.
pub fn readable_values<T>(rows: Vec<Result<T, rusqlite::Error>>) -> (r: Vec<T>)
    ensures
        r@ == ok_values(rows@),
{
    let ghost all = rows@;
    let mut rest = rows;
    let mut kept: Vec<T> = Vec::new();
    let ghost mut done: Seq<Result<T, rusqlite::Error>> = Seq::empty();
    while rest.len() > 0
        invariant
            all == done + rest@,
            kept@ == ok_values(done),
        decreases rest@.len(),
    {
        let ghost before = rest@;
        let x = rest.remove(0);
        proof {
            assert(done.push(x).drop_last() =~= done);
            assert(before =~= seq![x] + rest@);
            assert(all =~= done.push(x) + rest@);
            done = done.push(x);
        }
        match x {
            Ok(v) => kept.push(v),
            Err(_) => {},
        }
    }
    assert(done =~= all);
    kept
}

/// The only column of each row.
pub fn first_columns(rows: Vec<(String,)>) -> (r: Vec<String>)
    ensures
        r@.len() == rows@.len(),
        forall|i: int| 0 <= i < rows@.len() ==> r@[i] == rows@[i].0,
{
    let mut out: Vec<String> = Vec::new();
    let mut rest = rows;
    let ghost all = rest@;
    while rest.len() > 0
        invariant
            out@.len() + rest@.len() == all.len(),
            rest@ == all.subrange(out@.len() as int, all.len() as int),
            forall|i: int| 0 <= i < out@.len() ==> out@[i] == all[i].0,
        decreases rest@.len(),
    {
        let (name,) = rest.remove(0);
        out.push(name);
        assert(rest@ =~= all.subrange(out@.len() as int, all.len() as int));
    }
    out
}

/// The line of the election results for a row read from the database.
pub open spec fn tally_line(row: Result<(String, String, String, i32), rusqlite::Error>) -> Result<TallyRow, DbError> {
    match row {
        Ok((office, candidate, party, votes)) => Ok(TallyRow { office, candidate, party, votes }),
        Err(e) => Err(DbError::Sqlite(e)),
    }
}

/// The lines of the election results, one for each row read, in the same
/// order; a row that could not be read stays an error in its place.
pub fn tally_rows(rows: Vec<Result<(String, String, String, i32), rusqlite::Error>>) -> (r: Vec<Result<TallyRow, DbError>>)
    ensures
        r@.len() == rows@.len(),
        forall|i: int| 0 <= i < rows@.len() ==> #[trigger] r@[i] == tally_line(rows@[i]),
{
    let ghost all = rows@;
    let mut out: Vec<Result<TallyRow, DbError>> = Vec::new();
    let mut rest = rows;
    while rest.len() > 0
        invariant
            out@.len() + rest@.len() == all.len(),
            rest@ == all.subrange(out@.len() as int, all.len() as int),
            forall|i: int| 0 <= i < out@.len() ==> #[trigger] out@[i] == tally_line(all[i]),
        decreases rest@.len(),
    {
        let row = rest.remove(0);
        match row {
            Ok((office, candidate, party, votes)) => out.push(Ok(TallyRow { office, candidate, party, votes })),
            Err(e) => out.push(Err(DbError::Sqlite(e))),
        }
        assert(rest@ =~= all.subrange(out@.len() as int, all.len() as int));
    }
    out
}

} // verus!
