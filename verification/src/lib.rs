//! A voting machine: ballots with offices and candidates, a voter register
//! kept in SQLite, and the decisions that govern logins, votes and the
//! setup of an election.

use vstd::prelude::*;
use crate::db::{DbError, is_voter_registered, one_more, VOTER_EXISTS_SQL};
use crate::sql::{VotingDb, SqlReply, SqlValue};
use crate::dates::{parse_date, parsed_date, birth_date_format};

pub mod sql;
pub mod dates;
pub mod db;
pub mod text;
pub mod session;
pub mod election;
pub mod voter;

verus! {

/// A candidate standing for an office.
#[derive(Debug)]
pub struct Candidate {
    pub name: String,
    pub party: String,
    pub votes: u32,
}

/// An office on the ballot and the candidates who stand for it.
#[derive(Debug)]
pub struct Office {
    pub name: String,
    pub candidates: Vec<Candidate>,
}

/// The ballot of an election: its offices, and whether voting is open.
#[derive(Debug)]
pub struct Ballot {
    pub offices: Vec<Office>,
    pub is_open: bool,
}

/// The mathematical state of an office: its name and its candidates.
pub struct OfficeView {
    pub name: String,
    pub candidates: Seq<Candidate>,
}

impl View for Office {
    type V = OfficeView;

    open spec fn view(&self) -> OfficeView {
        OfficeView { name: self.name, candidates: self.candidates@ }
    }
}

/// The mathematical state of a ballot.
pub struct BallotView {
    pub offices: Seq<OfficeView>,
    pub is_open: bool,
}

impl View for Ballot {
    type V = BallotView;

    open spec fn view(&self) -> BallotView {
        BallotView { offices: self.offices@.map_values(|o: Office| o@), is_open: self.is_open }
    }
}

impl BallotView {
    /// The same ballot, open for voting.
    pub open spec fn opened(self) -> BallotView {
        BallotView { offices: self.offices, is_open: true }
    }

    /// The same ballot, closed for voting.
    pub open spec fn closed(self) -> BallotView {
        BallotView { offices: self.offices, is_open: false }
    }
}

/// What a request to open or close a ballot did.
#[derive(Debug, Clone, Copy, PartialEq, Eq)]
pub enum BallotChange {
    /// The ballot changed state.
    Changed,
    /// The ballot was already in the requested state and was left as it was.
    Unchanged,
}

/// Opens the ballot for voting. An open ballot is left as it is.
pub fn open_ballot(ballot: &mut Ballot) -> (change: BallotChange)
    ensures
        final(ballot)@ == old(ballot)@.opened(),
        change == (if old(ballot).is_open { BallotChange::Unchanged } else { BallotChange::Changed }),
{
    if ballot.is_open {
        BallotChange::Unchanged
    } else {
        ballot.is_open = true;
        BallotChange::Changed
    }
}

/// Closes the ballot, so that no vote is possible. A closed ballot is left as it is.
pub fn close_ballot(ballot: &mut Ballot) -> (change: BallotChange)
    ensures
        final(ballot)@ == old(ballot)@.closed(),
        change == (if old(ballot).is_open { BallotChange::Changed } else { BallotChange::Unchanged }),
{
    if ballot.is_open {
        ballot.is_open = false;
        BallotChange::Changed
    } else {
        BallotChange::Unchanged
    }
}

/// Whether the election results may be tallied: only once the ballot is
/// closed.
pub fn tally_allowed(ballot: &Ballot) -> (r: bool)
    ensures
        r == !ballot.is_open,
{
    !ballot.is_open
}

/// What the register said of a voter who asked to vote.
#[derive(Debug)]
pub enum VoterCheck {
    /// The voter is registered.
    Verified,
    /// The voter is not registered.
    NotRegistered,
    /// The date of birth is not a date written `MM/DD/YYYY`.
    InvalidDate,
    /// The register could not be read.
    Failed(DbError),
}

/// Reads the register's answer to whether a voter is registered.
pub fn voter_check_from(answer: Result<bool, DbError>) -> (r: VoterCheck)
    ensures
        match answer {
            Ok(true) => r is Verified,
            Ok(false) => r is NotRegistered,
            Err(e) => r == VoterCheck::Failed(e),
        },
{
    match answer {
        Ok(true) => VoterCheck::Verified,
        Ok(false) => VoterCheck::NotRegistered,
        Err(e) => VoterCheck::Failed(e),
    }
}

/// The check that the register's answer to the lookup of a voter gives.
pub open spec fn check_for(reply: SqlReply, c: VoterCheck) -> bool {
    match reply {
        SqlReply::Value(Some(SqlValue::Bool(true))) => c is Verified,
        SqlReply::Value(Some(SqlValue::Bool(false))) => c is NotRegistered,
        SqlReply::Value(None) => c matches VoterCheck::Failed(DbError::Sqlite(_)),
        _ => false,
    }
}

/// Checks a voter against the register: the date of birth must be a date
/// written `MM/DD/YYYY`; the register is then asked for the voter under the
/// name and the date of birth exactly as given. Nothing is written.
pub fn check_voter(db: &mut VotingDb, voter_name: &str, voter_dob: &str) -> (r: VoterCheck)
    ensures
        parsed_date(voter_dob@, birth_date_format()) is None
            ==> r is InvalidDate && final(db).sent() == old(db).sent(),
        parsed_date(voter_dob@, birth_date_format()) is Some ==> {
            &&& one_more(old(db).sent(), final(db).sent(), VOTER_EXISTS_SQL@,
                seq![SqlValue::Text(voter_name@), SqlValue::Text(voter_dob@)])
            &&& check_for(final(db).sent().last().reply, r)
        },
{
    if parse_date(voter_dob, "%m/%d/%Y").is_none() {
        return VoterCheck::InvalidDate;
    }
    voter_check_from(is_voter_registered(db, voter_name, voter_dob))
}

/// Whether a voter with this name and date of birth is registered: true
/// exactly where the date is a date written `MM/DD/YYYY` and the register
/// answered that it holds the voter under the name and date as given.
pub fn verify_voter(db: &mut VotingDb, voter_name: &str, voter_dob: &str) -> (r: bool)
    ensures
        parsed_date(voter_dob@, birth_date_format()) is None
            ==> !r && final(db).sent() == old(db).sent(),
        parsed_date(voter_dob@, birth_date_format()) is Some ==> {
            &&& one_more(old(db).sent(), final(db).sent(), VOTER_EXISTS_SQL@,
                seq![SqlValue::Text(voter_name@), SqlValue::Text(voter_dob@)])
            &&& r == (final(db).sent().last().reply == SqlReply::Value(Some(SqlValue::Bool(true))))
        },
{
    match check_voter(db, voter_name, voter_dob) {
        VoterCheck::Verified => true,
        _ => false,
    }
}

/// A request to open a ballot that is open, or to close one that is closed,
/// changes nothing.
pub proof fn lemma_request_in_same_state_changes_nothing(b: BallotView)
    ensures
        b.is_open ==> b.opened() == b,
        !b.is_open ==> b.closed() == b,
{
}

/// Opening twice is opening once, and closing twice is closing once.
pub proof fn lemma_open_close_idempotent(b: BallotView)
    ensures
        b.opened().opened() == b.opened(),
        b.closed().closed() == b.closed(),
{
}

/// Opening and closing change only whether voting is open: the offices and
/// candidates stay as they were, and of several requests the last decides.
pub proof fn lemma_last_request_decides(b: BallotView)
    ensures
        b.opened().offices == b.offices,
        b.closed().offices == b.offices,
        b.opened().is_open,
        !b.closed().is_open,
        b.opened().closed() == b.closed(),
        b.closed().opened() == b.opened(),
{
}

} // verus!
