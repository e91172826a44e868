//! The decisions of the voting machine's sessions: who is using the
//! machine, the admin login and menu, the voter login with its age rules,
//! the registration of voters, and the casting of votes.

use vstd::prelude::*;
use crate::sql::{VotingDb, SqlEvent, SqlReply, SqlValue};
use crate::db::{
    DbError, Registration, register_voter, registration_logged, is_voter_registered, cast_vote,
    has_voted, record_vote, get_voter_id, get_office_id, one_more, VOTER_EXISTS_SQL, VOTER_ID_SQL,
    OFFICE_ID_SQL, HAS_VOTED_SQL, CAST_VOTE_SQL, RECORD_VOTE_SQL, changed_result, delete_voter,
    delete_candidate, delete_office, DELETE_VOTER_SQL, DELETE_CANDIDATE_SQL,
    DELETE_OFFICE_CANDIDATES_SQL, DELETE_OFFICE_SQL,
};
use crate::dates::{parse_date, parsed_date, format_date, birth_date_text, birth_date_format};
use crate::text::{trimmed, trim_text, same_text, lowercase, is_word, find_choice, is_ascii_text, ascii_lowercase};

verus! {

/// Who is using the machine.
#[derive(Debug, Clone, Copy, PartialEq, Eq)]
pub enum Role {
    Admin,
    Voter,
    Exit,
    Unknown,
}

/// Reads the role a user typed: `admin`, `voter` or `exit`, with the
/// whitespace at its ends ignored.
pub fn role_from_input(line: &str) -> (r: Role)
    ensures
        r == (if trimmed(line@) == "admin"@ {
            Role::Admin
        } else if trimmed(line@) == "voter"@ {
            Role::Voter
        } else if trimmed(line@) == "exit"@ {
            Role::Exit
        } else {
            Role::Unknown
        }),
{
    let t = trim_text(line);
    if same_text(t, "admin") {
        Role::Admin
    } else if same_text(t, "voter") {
        Role::Voter
    } else if same_text(t, "exit") {
        Role::Exit
    } else {
        Role::Unknown
    }
}

/// Whether the lines typed at the admin login are the admin's username and
/// password, with the whitespace at their ends ignored.
pub fn admin_credentials_valid(username_line: &str, password_line: &str) -> (r: bool)
    ensures
        r == (trimmed(username_line@) == "adminname"@ && trimmed(password_line@) == "adminpassword"@),
{
    let username = trim_text(username_line);
    let password = trim_text(password_line);
    same_text(username, "adminname") && same_text(password, "adminpassword")
}

/// The entries of the admin menu.
#[derive(Debug, Clone, Copy, PartialEq, Eq)]
pub enum AdminCommand {
    CreateElection,
    RegisterVoter,
    OpenElection,
    CloseElection,
    TallyVotes,
    DeleteVoter,
    DeleteCandidate,
    DeleteOffice,
    ExitMenu,
    Invalid,
}

/// The number of each entry of the admin menu.
pub open spec fn admin_command_number(c: AdminCommand) -> Seq<char> {
    match c {
        AdminCommand::CreateElection => "1"@,
        AdminCommand::RegisterVoter => "2"@,
        AdminCommand::OpenElection => "3"@,
        AdminCommand::CloseElection => "4"@,
        AdminCommand::TallyVotes => "5"@,
        AdminCommand::DeleteVoter => "6"@,
        AdminCommand::DeleteCandidate => "7"@,
        AdminCommand::DeleteOffice => "8"@,
        AdminCommand::ExitMenu => "9"@,
        AdminCommand::Invalid => ""@,
    }
}

/// Reads the admin's choice of menu entry: its number, with the whitespace
/// at its ends ignored; anything else is `Invalid`.
pub fn admin_command(line: &str) -> (r: AdminCommand)
    ensures
        r != AdminCommand::Invalid ==> trimmed(line@) == admin_command_number(r),
        r == AdminCommand::Invalid ==> forall|c: AdminCommand| c != AdminCommand::Invalid ==> trimmed(line@) != admin_command_number(c),
{
    let t = trim_text(line);
    proof {
        reveal_strlit("1");
        reveal_strlit("2");
        reveal_strlit("3");
        reveal_strlit("4");
        reveal_strlit("5");
        reveal_strlit("6");
        reveal_strlit("7");
        reveal_strlit("8");
        reveal_strlit("9");
    }
    if same_text(t, "1") {
        AdminCommand::CreateElection
    } else if same_text(t, "2") {
        AdminCommand::RegisterVoter
    } else if same_text(t, "3") {
        AdminCommand::OpenElection
    } else if same_text(t, "4") {
        AdminCommand::CloseElection
    } else if same_text(t, "5") {
        AdminCommand::TallyVotes
    } else if same_text(t, "6") {
        AdminCommand::DeleteVoter
    } else if same_text(t, "7") {
        AdminCommand::DeleteCandidate
    } else if same_text(t, "8") {
        AdminCommand::DeleteOffice
    } else if same_text(t, "9") {
        AdminCommand::ExitMenu
    } else {
        AdminCommand::Invalid
    }
}

/// What the age rules of the voter login decide from a year of birth.
#[derive(Debug, Clone, Copy, PartialEq, Eq)]
pub enum AgeCheck {
    /// Between 1 and 17 years old: too young to vote.
    TooYoung,
    /// Older than 115 years: refused.
    TooOld,
    /// Any other age: the register decides.
    Eligible,
}

/// The age rules of the voter login. The age is the difference of the years.
pub open spec fn age_rule(birth_year: int, current_year: int) -> AgeCheck {
    let age = current_year - birth_year;
    if 0 < age && age < 18 {
        AgeCheck::TooYoung
    } else if age > 115 {
        AgeCheck::TooOld
    } else {
        AgeCheck::Eligible
    }
}

/// Applies the age rules of the voter login.
pub fn age_check(birth_year: i32, current_year: i32) -> (r: AgeCheck)
    ensures
        r == age_rule(birth_year as int, current_year as int),
{
    let age = current_year as i64 - birth_year as i64;
    if age > 0 && age < 18 {
        AgeCheck::TooYoung
    } else if age > 18 + 97 {
        AgeCheck::TooOld
    } else {
        AgeCheck::Eligible
    }
}

/// The verdict of a voter login on a date of birth that could be read.
#[derive(Debug)]
pub enum LoginVerdict {
    TooYoung,
    TooOld,
    /// The register holds the voter.
    Verified,
    /// The register does not hold the voter.
    NotRegistered,
    /// The register could not be read.
    LookupFailed(DbError),
}

/// The outcome of a voter login.
#[derive(Debug)]
pub enum Login {
    /// The date of birth is not a date written `MM/DD/YYYY`.
    InvalidDate,
    /// The date of birth was read; `formatted_date` is how it is written in
    /// the register.
    Checked { formatted_date: String, verdict: LoginVerdict },
}

impl Login {
    /// Whether the voter may go on to vote: only a voter the register holds.
    pub open spec fn admits(&self) -> bool {
        self matches Login::Checked { verdict, .. } && verdict is Verified
    }
}

/// Whether the voter may go on to vote.
pub fn login_admits(login: &Login) -> (r: bool)
    ensures
        r == login.admits(),
        r == (login matches Login::Checked { verdict, .. } && verdict is Verified),
{
    match login {
        Login::Checked { verdict: LoginVerdict::Verified, .. } => true,
        _ => false,
    }
}

/// The verdict that the register's answer to the lookup of a voter gives.
pub open spec fn verdict_for(reply: SqlReply, v: LoginVerdict) -> bool {
    match reply {
        SqlReply::Value(Some(SqlValue::Bool(true))) => v is Verified,
        SqlReply::Value(Some(SqlValue::Bool(false))) => v is NotRegistered,
        SqlReply::Value(None) => v matches LoginVerdict::LookupFailed(DbError::Sqlite(_)),
        _ => false,
    }
}

/// Reads the register's answer to whether a voter who passed the age rules
/// is registered.
pub fn login_verdict_from(answer: Result<bool, DbError>) -> (r: LoginVerdict)
    ensures
        match answer {
            Ok(true) => r is Verified,
            Ok(false) => r is NotRegistered,
            Err(e) => r == LoginVerdict::LookupFailed(e),
        },
{
    match answer {
        Ok(true) => LoginVerdict::Verified,
        Ok(false) => LoginVerdict::NotRegistered,
        Err(e) => LoginVerdict::LookupFailed(e),
    }
}

/// Logs a voter in: reads the date of birth written `MM/DD/YYYY`, applies the
/// age rules for the current year, and only then asks the register for the
/// voter under the date written as the register writes it. Nothing is ever
/// written to the register.
pub fn voter_login(db: &mut VotingDb, voter_name: &str, voter_dob: &str, current_year: i32) -> (r: Login)
    ensures
        match parsed_date(voter_dob@, birth_date_format()) {
            None => r is InvalidDate && final(db).sent() == old(db).sent(),
            Some(d) => r matches Login::Checked { formatted_date, verdict }
                && formatted_date@ == birth_date_text(d)
                && match age_rule(d.year as int, current_year as int) {
                    AgeCheck::TooYoung => verdict is TooYoung && final(db).sent() == old(db).sent(),
                    AgeCheck::TooOld => verdict is TooOld && final(db).sent() == old(db).sent(),
                    AgeCheck::Eligible => {
                        &&& one_more(old(db).sent(), final(db).sent(), VOTER_EXISTS_SQL@,
                            seq![SqlValue::Text(voter_name@), SqlValue::Text(birth_date_text(d))])
                        &&& verdict_for(final(db).sent().last().reply, verdict)
                    },
                },
        },
{
    let parsed = match parse_date(voter_dob, "%m/%d/%Y") {
        Some(d) => d,
        None => return Login::InvalidDate,
    };
    let formatted = format_date(parsed, "%m/%d/%Y");
    match age_check(parsed.year, current_year) {
        AgeCheck::TooYoung => Login::Checked { formatted_date: formatted, verdict: LoginVerdict::TooYoung },
        AgeCheck::TooOld => Login::Checked { formatted_date: formatted, verdict: LoginVerdict::TooOld },
        AgeCheck::Eligible => {
            let verdict = login_verdict_from(is_voter_registered(db, voter_name, formatted.as_str()));
            Login::Checked { formatted_date: formatted, verdict }
        },
    }
}

/// What became of a vote that a voter asked to cast.
#[derive(Debug, Clone, Copy, PartialEq, Eq)]
pub enum VoteOutcome {
    /// The vote was counted and recorded.
    Cast,
    /// The voter had already voted for the office; nothing was changed.
    AlreadyVoted,
}

/// The rule of one vote per office: a voter who has voted for the office is
/// refused.
pub open spec fn vote_rule(already_voted: bool) -> VoteOutcome {
    if already_voted { VoteOutcome::AlreadyVoted } else { VoteOutcome::Cast }
}

/// Applies the rule of one vote per office.
pub fn vote_decision(already_voted: bool) -> (r: VoteOutcome)
    ensures
        r == vote_rule(already_voted),
{
    if already_voted {
        VoteOutcome::AlreadyVoted
    } else {
        VoteOutcome::Cast
    }
}

/// The step of casting a vote at which the database failed.
#[derive(Debug, Clone, Copy, PartialEq, Eq)]
pub enum VoteStage {
    VoterId,
    OfficeId,
    VotingStatus,
    CastVote,
    RecordVote,
}

/// A vote that could not be cast because the database failed.
#[derive(Debug)]
pub struct VoteFailure {
    pub stage: VoteStage,
    pub error: DbError,
}

/// The result is a failure at `stage`, with an SQLite error.
pub open spec fn failed_at(r: Result<VoteOutcome, VoteFailure>, stage: VoteStage) -> bool {
    r matches Err(f) && f.stage == stage && f.error is Sqlite
}

/// What casting a vote sends, `steps`, and returns: the voter's id, the
/// office's id, whether the voter has voted for the office; then, only where
/// the register answers that the voter has not, the vote for the candidate
/// and the record that the voter voted for the office. A failure stops the
/// steps.
pub open spec fn vote_steps(
    steps: Seq<SqlEvent>,
    voter: Seq<char>,
    office: Seq<char>,
    candidate: Seq<char>,
    r: Result<VoteOutcome, VoteFailure>,
) -> bool {
    steps.len() >= 1 && steps[0].sql == VOTER_ID_SQL@ && steps[0].args == seq![SqlValue::Text(voter)]
        && match steps[0].reply {
        SqlReply::Value(Some(SqlValue::Int(v))) => steps.len() >= 2 && steps[1].sql == OFFICE_ID_SQL@
            && steps[1].args == seq![SqlValue::Text(office)] && match steps[1].reply {
            SqlReply::Value(Some(SqlValue::Int(o))) => steps.len() >= 3 && steps[2].sql == HAS_VOTED_SQL@
                && steps[2].args == seq![SqlValue::Int(v), SqlValue::Int(o)] && match steps[2].reply {
                SqlReply::Value(Some(SqlValue::Bool(true))) => steps.len() == 3 && r matches Ok(VoteOutcome::AlreadyVoted),
                SqlReply::Value(Some(SqlValue::Bool(false))) => steps.len() >= 4 && steps[3].sql == CAST_VOTE_SQL@
                    && steps[3].args == seq![SqlValue::Text(candidate)] && match steps[3].reply {
                    SqlReply::Changed(Some(_)) => steps.len() == 5 && steps[4].sql == RECORD_VOTE_SQL@
                        && steps[4].args == seq![SqlValue::Int(v), SqlValue::Int(o)] && match steps[4].reply {
                        SqlReply::Changed(Some(_)) => r matches Ok(VoteOutcome::Cast),
                        _ => failed_at(r, VoteStage::RecordVote),
                    },
                    _ => steps.len() == 4 && failed_at(r, VoteStage::CastVote),
                },
                _ => steps.len() == 3 && failed_at(r, VoteStage::VotingStatus),
            },
            _ => steps.len() == 2 && failed_at(r, VoteStage::OfficeId),
        },
        _ => steps.len() == 1 && failed_at(r, VoteStage::VoterId),
    }
}

/// The statements that `after` holds beyond `before`, where `after` extends
/// `before`.
pub open spec fn sent_since(before: Seq<SqlEvent>, after: Seq<SqlEvent>) -> Seq<SqlEvent> {
    after.subrange(before.len() as int, after.len() as int)
}

/// `after` is `before` followed by more statements.
pub open spec fn extends(before: Seq<SqlEvent>, after: Seq<SqlEvent>) -> bool {
    after.len() >= before.len() && after.subrange(0, before.len() as int) == before
}

/// Casts the vote of the voter called `voter_name` for `candidate_name` in
/// the office called `office_name`, by the rule of one vote per office: what
/// is sent and returned is `vote_steps`.
pub fn cast_ballot_vote(
    db: &mut VotingDb,
    voter_name: &str,
    office_name: &str,
    candidate_name: &str,
) -> (r: Result<VoteOutcome, VoteFailure>)
    ensures
        extends(old(db).sent(), final(db).sent()),
        vote_steps(sent_since(old(db).sent(), final(db).sent()), voter_name@, office_name@, candidate_name@, r),
{
    let ghost before = db.sent();
    let ghost n = before.len() as int;
    let voter_id = get_voter_id(db, voter_name);
    let ghost e0 = db.sent().last();
    let voter_id = match voter_id {
        Ok(id) => id,
        Err(error) => {
            assert(sent_since(before, db.sent()) =~= seq![e0]);
            assert(db.sent().subrange(0, n) =~= before);
            return Err(VoteFailure { stage: VoteStage::VoterId, error });
        },
    };
    let office_id = get_office_id(db, office_name);
    let ghost e1 = db.sent().last();
    let office_id = match office_id {
        Ok(id) => id,
        Err(error) => {
            assert(sent_since(before, db.sent()) =~= seq![e0, e1]);
            assert(db.sent().subrange(0, n) =~= before);
            return Err(VoteFailure { stage: VoteStage::OfficeId, error });
        },
    };
    let voted = has_voted(db, voter_id, office_id, false);
    let ghost e2 = db.sent().last();
    let already_voted = match voted {
        Ok(b) => b,
        Err(error) => {
            assert(sent_since(before, db.sent()) =~= seq![e0, e1, e2]);
            assert(db.sent().subrange(0, n) =~= before);
            return Err(VoteFailure { stage: VoteStage::VotingStatus, error });
        },
    };
    match vote_decision(already_voted) {
        VoteOutcome::AlreadyVoted => {
            assert(sent_since(before, db.sent()) =~= seq![e0, e1, e2]);
            assert(db.sent().subrange(0, n) =~= before);
            Ok(VoteOutcome::AlreadyVoted)
        },
        VoteOutcome::Cast => {
            let cast = cast_vote(db, candidate_name);
            let ghost e3 = db.sent().last();
            if let Err(error) = cast {
                assert(sent_since(before, db.sent()) =~= seq![e0, e1, e2, e3]);
                assert(db.sent().subrange(0, n) =~= before);
                return Err(VoteFailure { stage: VoteStage::CastVote, error });
            }
            let recorded = record_vote(db, voter_id, office_id);
            let ghost e4 = db.sent().last();
            assert(sent_since(before, db.sent()) =~= seq![e0, e1, e2, e3, e4]);
            assert(db.sent().subrange(0, n) =~= before);
            match recorded {
                Ok(()) => Ok(VoteOutcome::Cast),
                Err(error) => Err(VoteFailure { stage: VoteStage::RecordVote, error }),
            }
        },
    }
}

/// One vote per office, over what the register answered: a vote is cast only
/// where the register answered that the voter had not voted for the office,
/// and a cast vote is then recorded against that voter and office. Where the
/// register answered that the voter had voted, nothing at all is written.
pub proof fn lemma_one_vote_per_office(
    steps: Seq<SqlEvent>,
    voter: Seq<char>,
    office: Seq<char>,
    candidate: Seq<char>,
    r: Result<VoteOutcome, VoteFailure>,
)
    requires
        vote_steps(steps, voter, office, candidate, r),
    ensures
        steps.len() >= 3 && steps[2].reply == SqlReply::Value(Some(SqlValue::Bool(true)))
            ==> (r matches Ok(VoteOutcome::AlreadyVoted) && steps.len() == 3
                && forall|i: int| 0 <= i < steps.len() ==> !((#[trigger] steps[i]).reply is Changed)),
        r matches Ok(VoteOutcome::Cast) ==> {
            &&& steps.len() == 5
            &&& steps[2].sql == HAS_VOTED_SQL@
            &&& steps[2].reply == SqlReply::Value(Some(SqlValue::Bool(false)))
            &&& steps[3].sql == CAST_VOTE_SQL@
            &&& steps[4].sql == RECORD_VOTE_SQL@
            &&& steps[4].args == steps[2].args
        },
{
    if steps.len() >= 3 && steps[2].reply == SqlReply::Value(Some(SqlValue::Bool(true))) {
        assert forall|i: int| 0 <= i < steps.len() implies !((#[trigger] steps[i]).reply is Changed) by {
            assert(i == 0 || i == 1 || i == 2);
        }
    }
}

/// Casting a vote looks the voter up by name, then the office by name, and
/// both the check of the votes record and the record of the new vote carry
/// the pair (voter id, office id) that those two lookups returned, in that
/// order; the vote itself goes to the candidate named. So the record that
/// stops a second vote belongs to this voter and this office alone: other
/// voters of the office, and this voter's other offices, are not touched.
pub proof fn lemma_vote_is_kept_per_voter_and_office(
    steps: Seq<SqlEvent>,
    voter: Seq<char>,
    office: Seq<char>,
    candidate: Seq<char>,
    r: Result<VoteOutcome, VoteFailure>,
)
    requires
        vote_steps(steps, voter, office, candidate, r),
    ensures
        steps[0].sql == VOTER_ID_SQL@ && steps[0].args == seq![SqlValue::Text(voter)],
        steps.len() >= 2 ==> steps[1].sql == OFFICE_ID_SQL@ && steps[1].args == seq![SqlValue::Text(office)],
        steps.len() >= 3 ==> (steps[0].reply matches SqlReply::Value(Some(SqlValue::Int(v)))
            && steps[1].reply matches SqlReply::Value(Some(SqlValue::Int(o)))
            && steps[2].sql == HAS_VOTED_SQL@
            && steps[2].args == seq![SqlValue::Int(v), SqlValue::Int(o)]),
        steps.len() >= 4 ==> steps[3].sql == CAST_VOTE_SQL@ && steps[3].args == seq![SqlValue::Text(candidate)],
        steps.len() >= 5 ==> steps[4].sql == RECORD_VOTE_SQL@ && steps[4].args == steps[2].args,
{
}

/// Only a voter whom the register holds is let in to vote: a login is
/// admitted exactly when its verdict is `Verified`, and a date that could
/// not be read, an age outside the limits, a voter the register does not
/// hold, or a lookup that failed never admits.
pub proof fn lemma_only_verified_logins_admit(l: Login)
    ensures
        l is InvalidDate ==> !l.admits(),
        l matches Login::Checked { verdict, .. } ==> (l.admits() <==> verdict is Verified),
{
}

/// A login is admitted exactly when the register answered `true` to the
/// lookup of the voter: an answer `false`, or a failed lookup, refuses.
pub proof fn lemma_admission_follows_the_register(reply: SqlReply, formatted_date: String, verdict: LoginVerdict)
    requires
        verdict_for(reply, verdict),
    ensures
        (Login::Checked { formatted_date, verdict }).admits()
            <==> reply == SqlReply::Value(Some(SqlValue::Bool(true))),
{
}

/// A voter aged from 1 to 17 years is refused as too young, and one older
/// than 115 years is refused too; every other voter is left to the register.
pub proof fn lemma_age_limits(birth_year: int, current_year: int)
    ensures
        0 < current_year - birth_year < 18 ==> age_rule(birth_year, current_year) == AgeCheck::TooYoung,
        current_year - birth_year > 115 ==> age_rule(birth_year, current_year) == AgeCheck::TooOld,
        !(0 < current_year - birth_year < 18) && current_year - birth_year <= 115
            ==> age_rule(birth_year, current_year) == AgeCheck::Eligible,
{
}

/// What the registration of a new voter from the admin menu did.
#[derive(Debug)]
pub enum NewVoter {
    /// The admin typed `exit` or did not confirm; nothing was sent.
    Cancelled,
    /// The date of birth is not a date written `MM/DD/YYYY`; nothing was sent.
    InvalidDate,
    /// The register was asked to add the voter under `formatted_date`, the
    /// date of birth as the register writes it.
    Registered { formatted_date: String, registration: Registration },
    /// The register could not be read or written.
    Failed(DbError),
}

/// The registration result that a `NewVoter` reports.
pub open spec fn registration_of(r: NewVoter) -> Result<Registration, DbError> {
    match r {
        NewVoter::Registered { registration, .. } => Ok(registration),
        NewVoter::Failed(e) => Err(e),
        _ => Err(DbError::InvalidQuery),
    }
}

/// Registers a new voter from the admin menu: the date of birth must be a
/// date written `MM/DD/YYYY`, and is stored as the register writes dates.
pub fn register_new_voter(db: &mut VotingDb, name: &str, date_of_birth: &str) -> (r: NewVoter)
    ensures
        match parsed_date(date_of_birth@, birth_date_format()) {
            None => r is InvalidDate && final(db).sent() == old(db).sent(),
            Some(d) => {
                &&& (r is Registered || r is Failed)
                &&& registration_logged(old(db).sent(), final(db).sent(), name@, birth_date_text(d), registration_of(r))
                &&& r matches NewVoter::Registered { formatted_date, .. } ==> formatted_date@ == birth_date_text(d)
            },
        },
{
    let parsed = match parse_date(date_of_birth, "%m/%d/%Y") {
        Some(d) => d,
        None => return NewVoter::InvalidDate,
    };
    let formatted = format_date(parsed, "%m/%d/%Y");
    match register_voter(db, name, formatted.as_str()) {
        Ok(registration) => NewVoter::Registered { formatted_date: formatted, registration },
        Err(e) => NewVoter::Failed(e),
    }
}

/// The registration of a voter from the admin menu, from the three answers
/// typed: the name, the date of birth and the confirmation. Typing `exit`
/// (in any letter case) for the name or the date, or anything but `yes` for
/// the confirmation, cancels it, and nothing is sent.
pub fn admin_registration(db: &mut VotingDb, name: &str, date_of_birth: &str, confirmation: &str) -> (r: NewVoter)
    ensures
        lowercase(name@) == "exit"@ || lowercase(date_of_birth@) == "exit"@ || lowercase(confirmation@) != "yes"@
            ==> r is Cancelled && final(db).sent() == old(db).sent(),
        !(lowercase(name@) == "exit"@ || lowercase(date_of_birth@) == "exit"@ || lowercase(confirmation@) != "yes"@)
            ==> match parsed_date(date_of_birth@, birth_date_format()) {
            None => r is InvalidDate && final(db).sent() == old(db).sent(),
            Some(d) => {
                &&& (r is Registered || r is Failed)
                &&& registration_logged(old(db).sent(), final(db).sent(), name@, birth_date_text(d), registration_of(r))
                &&& r matches NewVoter::Registered { formatted_date, .. } ==> formatted_date@ == birth_date_text(d)
            },
        },
{
    if is_word(name, "exit") || is_word(date_of_birth, "exit") || !is_word(confirmation, "yes") {
        return NewVoter::Cancelled;
    }
    register_new_voter(db, name, date_of_birth)
}

/// Whether an answer the admin typed cancels what the admin was doing: the
/// word `exit`, in any letter case.
pub fn cancels(line: &str) -> (r: bool)
    ensures
        r == (lowercase(line@) == "exit"@),
        is_ascii_text(line@) ==> r == (ascii_lowercase(line@) == "exit"@),
{
    is_word(line, "exit")
}

/// Deletes a voter from the admin menu, from the name the admin typed:
/// `exit` cancels, and nothing is sent; any other name is handed to
/// `delete_voter`, whose result comes back.
pub fn delete_voter_request(db: &mut VotingDb, name: &str) -> (r: Option<Result<usize, DbError>>)
    ensures
        lowercase(name@) == "exit"@ ==> r is None && final(db).sent() == old(db).sent(),
        lowercase(name@) != "exit"@ ==> (r matches Some(res) && {
            &&& one_more(old(db).sent(), final(db).sent(), DELETE_VOTER_SQL@, seq![SqlValue::Text(name@)])
            &&& changed_result(final(db).sent().last().reply, res)
        }),
{
    if cancels(name) {
        return None;
    }
    Some(delete_voter(db, name))
}

/// Deletes a candidate from the admin menu, from the candidate's name and
/// the office's name the admin typed: `exit` for either cancels, and nothing
/// is sent; otherwise both are handed to `delete_candidate`, whose result
/// comes back.
pub fn delete_candidate_request(db: &mut VotingDb, candidate_name: &str, office_name: &str) -> (r: Option<Result<usize, DbError>>)
    ensures
        lowercase(candidate_name@) == "exit"@ || lowercase(office_name@) == "exit"@
            ==> r is None && final(db).sent() == old(db).sent(),
        !(lowercase(candidate_name@) == "exit"@ || lowercase(office_name@) == "exit"@) ==> (r matches Some(res) && {
            &&& one_more(old(db).sent(), final(db).sent(), DELETE_CANDIDATE_SQL@,
                seq![SqlValue::Text(candidate_name@), SqlValue::Text(office_name@)])
            &&& changed_result(final(db).sent().last().reply, res)
        }),
{
    if cancels(candidate_name) || cancels(office_name) {
        return None;
    }
    Some(delete_candidate(db, candidate_name, office_name))
}

/// Deletes an office from the admin menu, from the name the admin typed:
/// `exit` cancels, and nothing is sent; any other name is handed to
/// `delete_office`, which deletes the office's candidates and then the
/// office, and whose two results come back.
pub fn delete_office_request(db: &mut VotingDb, office_name: &str) -> (r: Option<(Result<usize, DbError>, Result<usize, DbError>)>)
    ensures
        lowercase(office_name@) == "exit"@ ==> r is None && final(db).sent() == old(db).sent(),
        lowercase(office_name@) != "exit"@ ==> (r matches Some(res) && {
            &&& final(db).sent().len() == old(db).sent().len() + 2
            &&& one_more(old(db).sent(), final(db).sent().drop_last(), DELETE_OFFICE_CANDIDATES_SQL@,
                seq![SqlValue::Text(office_name@)])
            &&& changed_result(final(db).sent().drop_last().last().reply, res.0)
            &&& one_more(final(db).sent().drop_last(), final(db).sent(), DELETE_OFFICE_SQL@,
                seq![SqlValue::Text(office_name@)])
            &&& changed_result(final(db).sent().last().reply, res.1)
        }),
{
    if cancels(office_name) {
        return None;
    }
    Some(delete_office(db, office_name))
}

/// Reads a voter's choice of office among the offices offered: `logout` (in
/// any letter case) asks to log out and gives the text `logout`; otherwise
/// the first office whose name equals the choice regardless of letter case.
pub fn choose_office(office_names: &Vec<String>, choice: &str) -> (r: Option<String>)
    ensures
        lowercase(choice@) == "logout"@ ==> (r matches Some(s) && s@ == "logout"@),
        lowercase(choice@) != "logout"@ ==> match r {
            Some(name) => exists|i: int| {
                &&& 0 <= i < office_names@.len()
                &&& name@ == office_names@[i]@
                &&& lowercase(office_names@[i]@) == lowercase(choice@)
                &&& forall|j: int| 0 <= j < i ==> lowercase(office_names@[j]@) != lowercase(choice@)
            },
            None => forall|i: int| 0 <= i < office_names@.len() ==> lowercase(office_names@[i]@) != lowercase(choice@),
        },
{
    if is_word(choice, "logout") {
        return Some(String::from_str("logout"));
    }
    find_choice(office_names, choice)
}

} // verus!
