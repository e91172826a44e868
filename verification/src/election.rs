//! The setup of an election by the admin, as a state machine: the admin
//! names offices and, for each, candidates and their parties; the machine
//! asks the database to check and store each of them, and the ballot is
//! opened once the admin is done. Typing `exit` at a name cancels the setup.
//!
//! The machine does no input or output itself: `step` takes what the admin
//! typed or what the database answered, and says what is to be done next.

use vstd::prelude::*;
use crate::{Ballot, Candidate, Office, OfficeView};
use crate::db::DbError;
use crate::text::{lowercase, is_word};

verus! {

/// Where the setup of an election stands.
pub enum SetupStage {
    /// Waiting for the name of the next office.
    OfficeName,
    /// Waiting for the number of offices that already carry this name.
    OfficeCheck { office: String },
    /// Waiting for the office to be stored.
    OfficeInsert { office: String },
    /// Waiting for the name of the next candidate for the office.
    CandidateName { office: String },
    /// Waiting for the party of the candidate.
    Party { office: String, candidate: String },
    /// Waiting for the candidate to be stored.
    CandidateInsert { office: String, candidate: String, party: String },
    /// Waiting for the answer to whether another candidate follows.
    MoreCandidates { office: String },
    /// Waiting for the answer to whether another office follows.
    MoreOffices,
    /// The admin canceled the setup; nothing is to be saved.
    Cancelled,
    /// The admin finished the setup; everything is to be saved.
    Committed,
}

/// What the setup is told.
pub enum SetupEvent {
    /// A line the admin typed, as the machine reads it.
    Typed(String),
    /// The number of offices that carry the name being checked.
    OfficeCount(Result<i32, DbError>),
    /// Whether the office or candidate was stored.
    Stored(Result<(), DbError>),
}

/// What is to be done next.
pub enum SetupAction {
    AskOfficeName,
    /// Count the offices that carry this name (in any letter case).
    CheckOffice(String),
    /// The office exists already; ask for another name.
    OfficeExists(String),
    /// The offices could not be counted; ask for another name.
    OfficeCheckFailed(DbError),
    /// Store this office.
    InsertOffice(String),
    /// The office could not be stored; ask for another name.
    OfficeInsertFailed(DbError),
    AskCandidateName,
    AskParty,
    /// Store this candidate for the office.
    InsertCandidate { candidate: String, party: String, office: String },
    /// The candidate could not be stored; ask for another candidate.
    CandidateInsertFailed(DbError),
    AskMoreCandidates,
    AskMoreOffices,
    /// The admin canceled at the name of an office: save nothing.
    CancelElection,
    /// The admin canceled at the name or party of a candidate: save nothing.
    CancelCandidate,
    /// Save everything.
    Commit,
    /// The event does not fit the stage; nothing changed.
    Ignored,
}

/// The setup of an election in progress.
pub struct ElectionSetup {
    stage: SetupStage,
    offices: Vec<Office>,
    candidates: Vec<Candidate>,
}

/// The state of a setup: its stage, the offices completed so far, and the
/// candidates of the office in progress.
pub struct SetupView {
    pub stage: SetupStage,
    pub offices: Seq<OfficeView>,
    pub candidates: Seq<Candidate>,
}

impl View for ElectionSetup {
    type V = SetupView;

    closed spec fn view(&self) -> SetupView {
        SetupView { stage: self.stage, offices: self.offices@.map_values(|o: Office| o@), candidates: self.candidates@ }
    }
}

/// Whether a typed line is the given word, as the setup reads it.
pub open spec fn typed_word(t: String, word: Seq<char>) -> bool {
    lowercase(t@) == word
}

impl SetupView {
    /// Every candidate of the setup, on a completed office or on the office
    /// in progress, has no votes yet.
    pub open spec fn no_votes(self) -> bool {
        &&& forall|i: int, j: int| 0 <= i < self.offices.len() && 0 <= j < self.offices[i].candidates.len()
            ==> #[trigger] self.offices[i].candidates[j].votes == 0
        &&& forall|j: int| 0 <= j < self.candidates.len() ==> #[trigger] self.candidates[j].votes == 0
    }

    /// The same setup at another stage.
    pub open spec fn at(self, stage: SetupStage) -> SetupView {
        SetupView { stage, offices: self.offices, candidates: self.candidates }
    }
}

/// The rules of the setup: the next state and what is to be done, for each
/// stage and event.
pub open spec fn transition(s: SetupView, event: SetupEvent) -> (SetupView, SetupAction) {
    match s.stage {
        SetupStage::OfficeName => match event {
            SetupEvent::Typed(t) => if typed_word(t, "exit"@) {
                (s.at(SetupStage::Cancelled), SetupAction::CancelElection)
            } else {
                (s.at(SetupStage::OfficeCheck { office: t }), SetupAction::CheckOffice(t))
            },
            _ => (s, SetupAction::Ignored),
        },
        SetupStage::OfficeCheck { office } => match event {
            SetupEvent::OfficeCount(Ok(n)) => if n > 0 {
                (s.at(SetupStage::OfficeName), SetupAction::OfficeExists(office))
            } else {
                (s.at(SetupStage::OfficeInsert { office }), SetupAction::InsertOffice(office))
            },
            SetupEvent::OfficeCount(Err(e)) => (s.at(SetupStage::OfficeName), SetupAction::OfficeCheckFailed(e)),
            _ => (s, SetupAction::Ignored),
        },
        SetupStage::OfficeInsert { office } => match event {
            SetupEvent::Stored(Ok(())) => (
                SetupView { stage: SetupStage::CandidateName { office }, offices: s.offices, candidates: Seq::empty() },
                SetupAction::AskCandidateName,
            ),
            SetupEvent::Stored(Err(e)) => (s.at(SetupStage::OfficeName), SetupAction::OfficeInsertFailed(e)),
            _ => (s, SetupAction::Ignored),
        },
        SetupStage::CandidateName { office } => match event {
            SetupEvent::Typed(t) => if typed_word(t, "exit"@) {
                (s.at(SetupStage::Cancelled), SetupAction::CancelCandidate)
            } else {
                (s.at(SetupStage::Party { office, candidate: t }), SetupAction::AskParty)
            },
            _ => (s, SetupAction::Ignored),
        },
        SetupStage::Party { office, candidate } => match event {
            SetupEvent::Typed(t) => if typed_word(t, "exit"@) {
                (s.at(SetupStage::Cancelled), SetupAction::CancelCandidate)
            } else {
                (
                    s.at(SetupStage::CandidateInsert { office, candidate, party: t }),
                    SetupAction::InsertCandidate { candidate, party: t, office },
                )
            },
            _ => (s, SetupAction::Ignored),
        },
        SetupStage::CandidateInsert { office, candidate, party } => match event {
            SetupEvent::Stored(Ok(())) => (
                SetupView {
                    stage: SetupStage::MoreCandidates { office },
                    offices: s.offices,
                    candidates: s.candidates.push(Candidate { name: candidate, party, votes: 0 }),
                },
                SetupAction::AskMoreCandidates,
            ),
            SetupEvent::Stored(Err(e)) => (s.at(SetupStage::CandidateName { office }), SetupAction::CandidateInsertFailed(e)),
            _ => (s, SetupAction::Ignored),
        },
        SetupStage::MoreCandidates { office } => match event {
            SetupEvent::Typed(t) => if typed_word(t, "yes"@) {
                (s.at(SetupStage::CandidateName { office }), SetupAction::AskCandidateName)
            } else {
                (
                    SetupView {
                        stage: SetupStage::MoreOffices,
                        offices: s.offices.push(OfficeView { name: office, candidates: s.candidates }),
                        candidates: Seq::empty(),
                    },
                    SetupAction::AskMoreOffices,
                )
            },
            _ => (s, SetupAction::Ignored),
        },
        SetupStage::MoreOffices => match event {
            SetupEvent::Typed(t) => if typed_word(t, "yes"@) {
                (s.at(SetupStage::OfficeName), SetupAction::AskOfficeName)
            } else {
                (s.at(SetupStage::Committed), SetupAction::Commit)
            },
            _ => (s, SetupAction::Ignored),
        },
        SetupStage::Cancelled => (s, SetupAction::Ignored),
        SetupStage::Committed => (s, SetupAction::Ignored),
    }
}

impl ElectionSetup {
    /// The rules that every setup keeps.
    pub open spec fn wf(&self) -> bool {
        self@.no_votes()
    }

    /// A setup that waits for the name of the first office.
    pub fn new() -> (r: ElectionSetup)
        ensures
            r.wf(),
            r@.stage is OfficeName,
            r@.offices.len() == 0,
            r@.candidates.len() == 0,
    {
        let r = ElectionSetup { stage: SetupStage::OfficeName, offices: Vec::new(), candidates: Vec::new() };
        assert(r@.offices =~= Seq::<OfficeView>::empty());
        r
    }

    /// The offices completed so far.
    pub fn offices(&self) -> (r: &Vec<Office>)
        ensures
            r@.map_values(|o: Office| o@) == self@.offices,
    {
        &self.offices
    }

    /// Where the setup stands.
    pub fn stage(&self) -> (r: &SetupStage)
        ensures
            *r == self@.stage,
    {
        &self.stage
    }

    /// Takes in what the admin typed or what the database answered, and says
    /// what is to be done next, by the rules of `transition`.
    pub fn step(&mut self, event: SetupEvent) -> (action: SetupAction)
        requires
            old(self).wf(),
        ensures
            final(self).wf(),
            (final(self)@, action) == transition(old(self)@, event),
    {
        let ghost pre = self@;
        let mut stage = SetupStage::Committed;
        std::mem::swap(&mut stage, &mut self.stage);
        assert(self@.offices == pre.offices);
        assert(self@.candidates == pre.candidates);
        match stage {
            SetupStage::OfficeName => match event {
                SetupEvent::Typed(t) => {
                    if is_word(t.as_str(), "exit") {
                        self.stage = SetupStage::Cancelled;
                        SetupAction::CancelElection
                    } else {
                        let office = t.clone();
                        self.stage = SetupStage::OfficeCheck { office };
                        SetupAction::CheckOffice(t)
                    }
                },
                _ => {
                    self.stage = SetupStage::OfficeName;
                    SetupAction::Ignored
                },
            },
            SetupStage::OfficeCheck { office } => match event {
                SetupEvent::OfficeCount(Ok(n)) => {
                    if n > 0 {
                        self.stage = SetupStage::OfficeName;
                        SetupAction::OfficeExists(office)
                    } else {
                        let name = office.clone();
                        self.stage = SetupStage::OfficeInsert { office };
                        SetupAction::InsertOffice(name)
                    }
                },
                SetupEvent::OfficeCount(Err(e)) => {
                    self.stage = SetupStage::OfficeName;
                    SetupAction::OfficeCheckFailed(e)
                },
                _ => {
                    self.stage = SetupStage::OfficeCheck { office };
                    SetupAction::Ignored
                },
            },
            SetupStage::OfficeInsert { office } => match event {
                SetupEvent::Stored(Ok(())) => {
                    self.candidates = Vec::new();
                    self.stage = SetupStage::CandidateName { office };
                    SetupAction::AskCandidateName
                },
                SetupEvent::Stored(Err(e)) => {
                    self.stage = SetupStage::OfficeName;
                    SetupAction::OfficeInsertFailed(e)
                },
                _ => {
                    self.stage = SetupStage::OfficeInsert { office };
                    SetupAction::Ignored
                },
            },
            SetupStage::CandidateName { office } => match event {
                SetupEvent::Typed(t) => {
                    if is_word(t.as_str(), "exit") {
                        self.stage = SetupStage::Cancelled;
                        SetupAction::CancelCandidate
                    } else {
                        self.stage = SetupStage::Party { office, candidate: t };
                        SetupAction::AskParty
                    }
                },
                _ => {
                    self.stage = SetupStage::CandidateName { office };
                    SetupAction::Ignored
                },
            },
            SetupStage::Party { office, candidate } => match event {
                SetupEvent::Typed(t) => {
                    if is_word(t.as_str(), "exit") {
                        self.stage = SetupStage::Cancelled;
                        SetupAction::CancelCandidate
                    } else {
                        let action = SetupAction::InsertCandidate {
                            candidate: candidate.clone(),
                            party: t.clone(),
                            office: office.clone(),
                        };
                        self.stage = SetupStage::CandidateInsert { office, candidate, party: t };
                        action
                    }
                },
                _ => {
                    self.stage = SetupStage::Party { office, candidate };
                    SetupAction::Ignored
                },
            },
            SetupStage::CandidateInsert { office, candidate, party } => match event {
                SetupEvent::Stored(Ok(())) => {
                    let ghost added = Candidate { name: candidate, party, votes: 0 };
                    self.candidates.push(Candidate { name: candidate, party, votes: 0 });
                    assert(self.candidates@ =~= pre.candidates.push(added));
                    self.stage = SetupStage::MoreCandidates { office };
                    SetupAction::AskMoreCandidates
                },
                SetupEvent::Stored(Err(e)) => {
                    self.stage = SetupStage::CandidateName { office };
                    SetupAction::CandidateInsertFailed(e)
                },
                _ => {
                    self.stage = SetupStage::CandidateInsert { office, candidate, party };
                    SetupAction::Ignored
                },
            },
            SetupStage::MoreCandidates { office } => match event {
                SetupEvent::Typed(t) => {
                    if is_word(t.as_str(), "yes") {
                        self.stage = SetupStage::CandidateName { office };
                        SetupAction::AskCandidateName
                    } else {
                        let ghost name = office;
                        let mut done: Vec<Candidate> = Vec::new();
                        std::mem::swap(&mut done, &mut self.candidates);
                        self.offices.push(Office { name: office, candidates: done });
                        self.stage = SetupStage::MoreOffices;
                        proof {
                            assert(self@.offices =~= pre.offices.push(OfficeView { name, candidates: pre.candidates }));
                            assert(self@.candidates =~= Seq::<Candidate>::empty());
                        }
                        SetupAction::AskMoreOffices
                    }
                },
                _ => {
                    self.stage = SetupStage::MoreCandidates { office };
                    SetupAction::Ignored
                },
            },
            SetupStage::MoreOffices => match event {
                SetupEvent::Typed(t) => {
                    if is_word(t.as_str(), "yes") {
                        self.stage = SetupStage::OfficeName;
                        SetupAction::AskOfficeName
                    } else {
                        self.stage = SetupStage::Committed;
                        SetupAction::Commit
                    }
                },
                _ => {
                    self.stage = SetupStage::MoreOffices;
                    SetupAction::Ignored
                },
            },
            SetupStage::Cancelled => {
                self.stage = SetupStage::Cancelled;
                SetupAction::Ignored
            },
            SetupStage::Committed => {
                self.stage = SetupStage::Committed;
                SetupAction::Ignored
            },
        }
    }

    /// The ballot that the setup produced: only a committed setup produces
    /// one, open for voting, with the offices completed; a setup that was
    /// canceled, or is not finished, produces none.
    pub fn into_ballot(self) -> (r: Option<Ballot>)
        requires
            self.wf(),
        ensures
            r is Some <==> self@.stage is Committed,
            r matches Some(b) ==> b@.offices == self@.offices && b@.is_open,
            r matches Some(b) ==> forall|i: int, j: int| 0 <= i < b@.offices.len() && 0 <= j < b@.offices[i].candidates.len()
                ==> #[trigger] b@.offices[i].candidates[j].votes == 0,
    {
        match self.stage {
            SetupStage::Committed => Some(Ballot { offices: self.offices, is_open: true }),
            _ => None,
        }
    }
}

/// Offices that the setup has completed stay, in their order: each step at
/// most appends one.
pub proof fn lemma_offices_only_grow(s: SetupView, event: SetupEvent)
    ensures
        s.offices.len() <= transition(s, event).0.offices.len() <= s.offices.len() + 1,
        transition(s, event).0.offices.subrange(0, s.offices.len() as int) == s.offices,
{
    let post = transition(s, event).0;
    assert(post.offices.subrange(0, s.offices.len() as int) =~= s.offices);
}

/// No candidate of a setup ever has a vote: every step keeps that so.
pub proof fn lemma_no_votes_kept(s: SetupView, event: SetupEvent)
    requires
        s.no_votes(),
    ensures
        transition(s, event).0.no_votes(),
{
    let post = transition(s, event).0;
    assert forall|i: int, j: int| 0 <= i < post.offices.len() && 0 <= j < post.offices[i].candidates.len()
        implies #[trigger] post.offices[i].candidates[j].votes == 0 by {
        if i < s.offices.len() {
            assert(post.offices[i] == s.offices[i]);
        } else {
            assert(post.offices[i].candidates == s.candidates);
            assert(s.candidates[j].votes == 0);
        }
    }
    assert forall|j: int| 0 <= j < post.candidates.len() implies #[trigger] post.candidates[j].votes == 0 by {
        if j < s.candidates.len() {
            assert(post.candidates[j] == s.candidates[j]);
        }
    }
}

/// Typing `exit` (in any letter case) at the name of an office or of a
/// candidate, or at the party of a candidate, cancels the setup.
pub proof fn lemma_exit_cancels(s: SetupView, t: String)
    requires
        s.stage is OfficeName || s.stage is CandidateName || s.stage is Party,
        typed_word(t, "exit"@),
    ensures
        transition(s, SetupEvent::Typed(t)).0.stage is Cancelled,
        transition(s, SetupEvent::Typed(t)).0.offices == s.offices,
{
}

/// A new office starts with no candidates: once the office is stored, the
/// candidates in progress are empty, whatever came before.
pub proof fn lemma_new_office_starts_empty(s: SetupView, office: String)
    requires
        s.stage == (SetupStage::OfficeInsert { office }),
    ensures
        transition(s, SetupEvent::Stored(Ok(()))).0.stage == (SetupStage::CandidateName { office }),
        transition(s, SetupEvent::Stored(Ok(()))).0.candidates.len() == 0,
        transition(s, SetupEvent::Stored(Ok(()))).0.offices == s.offices,
{
}

/// The party typed for a candidate is the party the candidate is stored
/// with: typing a party `t` that is not `exit` asks to store the candidate
/// named at the previous step, with party `t`, for the office in progress,
/// whatever candidates were added before; once stored, the candidate, with
/// that name and party and no votes, is appended to the candidates of the
/// office, and nothing else changes.
pub proof fn lemma_candidate_stored_as_typed(s: SetupView, office: String, candidate: String, t: String)
    requires
        s.stage == (SetupStage::Party { office, candidate }),
        !typed_word(t, "exit"@),
    ensures
        transition(s, SetupEvent::Typed(t)).1 == (SetupAction::InsertCandidate { candidate, party: t, office }),
        ({
            let mid = transition(s, SetupEvent::Typed(t)).0;
            let post = transition(mid, SetupEvent::Stored(Ok(()))).0;
            &&& post.candidates == s.candidates.push(Candidate { name: candidate, party: t, votes: 0 })
            &&& post.offices == s.offices
            &&& post.stage == (SetupStage::MoreCandidates { office })
        }),
{
}

/// An office is completed with exactly the candidates added since it was
/// stored: answering anything but `yes` to more candidates appends the
/// office with the candidates in progress, and leaves none in progress for
/// the next office.
pub proof fn lemma_office_completed_with_its_candidates(s: SetupView, office: String, t: String)
    requires
        s.stage == (SetupStage::MoreCandidates { office }),
        !typed_word(t, "yes"@),
    ensures
        transition(s, SetupEvent::Typed(t)).0.offices == s.offices.push(OfficeView { name: office, candidates: s.candidates }),
        transition(s, SetupEvent::Typed(t)).0.candidates.len() == 0,
        transition(s, SetupEvent::Typed(t)).0.stage is MoreOffices,
{
}

/// The candidates in progress change only in three ways: a stored
/// candidate is appended, and a newly stored office or a completed office
/// empties them; every other step leaves them as they were.
pub proof fn lemma_candidates_in_progress(s: SetupView, event: SetupEvent)
    ensures
        ({
            let post = transition(s, event).0;
            ||| post.candidates == s.candidates
            ||| (s.stage matches SetupStage::CandidateInsert { candidate, party, .. }
                && post.candidates == s.candidates.push(Candidate { name: candidate, party, votes: 0 }))
            ||| ((s.stage is OfficeInsert || s.stage is MoreCandidates) && post.candidates.len() == 0)
        }),
{
}

/// An office is stored only under the name typed, and only once the
/// database has counted no office of that name: a name that is not `exit`
/// is first checked; a positive count refuses it and asks for another name;
/// a count of zero asks to store the office under that very name.
pub proof fn lemma_office_checked_then_stored(s: SetupView, t: String, n: i32)
    requires
        s.stage is OfficeName,
        !typed_word(t, "exit"@),
    ensures
        transition(s, SetupEvent::Typed(t)).1 == SetupAction::CheckOffice(t),
        ({
            let mid = transition(s, SetupEvent::Typed(t)).0;
            let (post, action) = transition(mid, SetupEvent::OfficeCount(Ok(n)));
            &&& post.offices == s.offices
            &&& post.candidates == s.candidates
            &&& n > 0 ==> post.stage is OfficeName && action == SetupAction::OfficeExists(t)
            &&& n <= 0 ==> post.stage == (SetupStage::OfficeInsert { office: t }) && action == SetupAction::InsertOffice(t)
        }),
{
}

/// The answers to "another candidate?" and "another office?": `yes` asks
/// for the next candidate of the same office, keeping those added, or for
/// the next office; any other answer to "another office?" saves the
/// election, with the offices completed so far.
pub proof fn lemma_more_answers(s: SetupView, office: String, t: String)
    ensures
        s.stage == (SetupStage::MoreCandidates { office }) && typed_word(t, "yes"@) ==> {
            let (post, action) = transition(s, SetupEvent::Typed(t));
            &&& post.stage == (SetupStage::CandidateName { office })
            &&& post.candidates == s.candidates
            &&& post.offices == s.offices
            &&& action is AskCandidateName
        },
        s.stage is MoreOffices ==> {
            let (post, action) = transition(s, SetupEvent::Typed(t));
            &&& post.offices == s.offices
            &&& typed_word(t, "yes"@) ==> post.stage is OfficeName && action is AskOfficeName
            &&& !typed_word(t, "yes"@) ==> post.stage is Committed && action is Commit
        },
{
}

/// A canceled or committed setup is finished: no event changes it.
pub proof fn lemma_finished_setup_stays(s: SetupView, event: SetupEvent)
    requires
        s.stage is Cancelled || s.stage is Committed,
    ensures
        transition(s, event).0 == s,
        transition(s, event).1 is Ignored,
{
}

} // verus!
