//! A voter's session at the machine, as a state machine: the voter logs in,
//! and, only after a login that the register admits and while the ballot is
//! open, chooses offices and candidates to vote for, until logging out.
//!
//! The machine does no input or output itself: `voter_step` takes the
//! outcome of the login or the voter's choice, and says what is to be done.

use vstd::prelude::*;
use crate::Ballot;
use crate::text::{lowercase, is_word};

verus! {

/// Where a voter's session stands.
pub enum VoterStage {
    /// Waiting for the outcome of the login.
    Login,
    /// Waiting for the voter's choice of office (or `logout`).
    ChooseOffice,
    /// Waiting for the voter's choice of candidate for the office.
    ChooseCandidate { office: String },
    /// The session is over.
    Done,
}

/// What the session is told.
pub enum VoterEvent {
    /// Whether the login admitted the voter.
    LoggedIn(bool),
    /// The office the voter chose among those offered, if any.
    OfficeChosen(Option<String>),
    /// The candidate the voter chose among those offered, if any.
    CandidateChosen(Option<String>),
}

/// What is to be done next.
pub enum VoterAction {
    /// The login was refused; the session is over.
    NotRegistered,
    /// The ballot is not open; the session is over.
    ElectionClosed,
    /// Offer the offices.
    ShowOffices,
    /// The choice of office was not one offered; offer the offices again.
    InvalidOffice,
    /// Offer the candidates for the office.
    ShowCandidates(String),
    /// The choice of candidate was not one offered; offer the offices again.
    InvalidCandidate,
    /// Cast the voter's vote for the candidate in the office, then offer the
    /// offices again.
    CastVote { office: String, candidate: String },
    /// The voter logged out; the session is over.
    LogOut,
    /// The event does not fit the stage; nothing changed.
    Ignored,
}

/// A voter's session.
pub struct VoterSession {
    stage: VoterStage,
    admitted: bool,
}

/// The state of a session: its stage, and whether the login admitted the voter.
pub struct VoterSessionView {
    pub stage: VoterStage,
    pub admitted: bool,
}

impl View for VoterSession {
    type V = VoterSessionView;

    closed spec fn view(&self) -> VoterSessionView {
        VoterSessionView { stage: self.stage, admitted: self.admitted }
    }
}

impl VoterSessionView {
    /// A voter chooses offices and candidates only after an admitting login.
    pub open spec fn wf(self) -> bool {
        (self.stage is ChooseOffice || self.stage is ChooseCandidate) ==> self.admitted
    }
}

/// The rules of a voter's session, for each stage and event, given whether
/// the ballot is open.
pub open spec fn voter_transition(s: VoterSessionView, ballot_open: bool, event: VoterEvent) -> (VoterSessionView, VoterAction) {
    match s.stage {
        VoterStage::Login => match event {
            VoterEvent::LoggedIn(true) => if ballot_open {
                (VoterSessionView { stage: VoterStage::ChooseOffice, admitted: true }, VoterAction::ShowOffices)
            } else {
                (VoterSessionView { stage: VoterStage::Done, admitted: true }, VoterAction::ElectionClosed)
            },
            VoterEvent::LoggedIn(false) => (VoterSessionView { stage: VoterStage::Done, admitted: false }, VoterAction::NotRegistered),
            _ => (s, VoterAction::Ignored),
        },
        VoterStage::ChooseOffice => match event {
            VoterEvent::OfficeChosen(None) => (s, VoterAction::InvalidOffice),
            VoterEvent::OfficeChosen(Some(o)) => if lowercase(o@) == "logout"@ {
                (VoterSessionView { stage: VoterStage::Done, admitted: s.admitted }, VoterAction::LogOut)
            } else if ballot_open {
                (VoterSessionView { stage: VoterStage::ChooseCandidate { office: o }, admitted: s.admitted }, VoterAction::ShowCandidates(o))
            } else {
                (VoterSessionView { stage: VoterStage::Done, admitted: s.admitted }, VoterAction::ElectionClosed)
            },
            _ => (s, VoterAction::Ignored),
        },
        VoterStage::ChooseCandidate { office } => match event {
            VoterEvent::CandidateChosen(None) => (VoterSessionView { stage: VoterStage::ChooseOffice, admitted: s.admitted }, VoterAction::InvalidCandidate),
            VoterEvent::CandidateChosen(Some(c)) => if ballot_open {
                (VoterSessionView { stage: VoterStage::ChooseOffice, admitted: s.admitted }, VoterAction::CastVote { office, candidate: c })
            } else {
                (VoterSessionView { stage: VoterStage::Done, admitted: s.admitted }, VoterAction::ElectionClosed)
            },
            _ => (s, VoterAction::Ignored),
        },
        VoterStage::Done => (s, VoterAction::Ignored),
    }
}

impl VoterSession {
    /// A session waiting for the outcome of the login.
    pub fn new() -> (r: VoterSession)
        ensures
            r@.stage is Login,
            !r@.admitted,
            r@.wf(),
    {
        VoterSession { stage: VoterStage::Login, admitted: false }
    }

    /// Where the session stands.
    pub fn stage(&self) -> (r: &VoterStage)
        ensures
            *r == self@.stage,
    {
        &self.stage
    }
}

/// Takes in the outcome of the login or a choice of the voter, and says what
/// is to be done next, by the rules of `voter_transition`.
pub fn voter_step(s: &mut VoterSession, ballot: &Ballot, event: VoterEvent) -> (a: VoterAction)
    requires
        old(s)@.wf(),
    ensures
        final(s)@.wf(),
        (final(s)@, a) == voter_transition(old(s)@, ballot@.is_open, event),
{
    let mut stage = VoterStage::Done;
    std::mem::swap(&mut stage, &mut s.stage);
    match stage {
        VoterStage::Login => match event {
            VoterEvent::LoggedIn(true) => {
                s.admitted = true;
                if ballot.is_open {
                    s.stage = VoterStage::ChooseOffice;
                    VoterAction::ShowOffices
                } else {
                    s.stage = VoterStage::Done;
                    VoterAction::ElectionClosed
                }
            },
            VoterEvent::LoggedIn(false) => {
                s.admitted = false;
                s.stage = VoterStage::Done;
                VoterAction::NotRegistered
            },
            _ => {
                s.stage = VoterStage::Login;
                VoterAction::Ignored
            },
        },
        VoterStage::ChooseOffice => match event {
            VoterEvent::OfficeChosen(None) => {
                s.stage = VoterStage::ChooseOffice;
                VoterAction::InvalidOffice
            },
            VoterEvent::OfficeChosen(Some(o)) => {
                if is_word(o.as_str(), "logout") {
                    s.stage = VoterStage::Done;
                    VoterAction::LogOut
                } else if ballot.is_open {
                    let office = o.clone();
                    s.stage = VoterStage::ChooseCandidate { office };
                    VoterAction::ShowCandidates(o)
                } else {
                    s.stage = VoterStage::Done;
                    VoterAction::ElectionClosed
                }
            },
            _ => {
                s.stage = VoterStage::ChooseOffice;
                VoterAction::Ignored
            },
        },
        VoterStage::ChooseCandidate { office } => match event {
            VoterEvent::CandidateChosen(None) => {
                s.stage = VoterStage::ChooseOffice;
                VoterAction::InvalidCandidate
            },
            VoterEvent::CandidateChosen(Some(c)) => {
                if ballot.is_open {
                    s.stage = VoterStage::ChooseOffice;
                    VoterAction::CastVote { office, candidate: c }
                } else {
                    s.stage = VoterStage::Done;
                    VoterAction::ElectionClosed
                }
            },
            _ => {
                s.stage = VoterStage::ChooseCandidate { office };
                VoterAction::Ignored
            },
        },
        VoterStage::Done => {
            s.stage = VoterStage::Done;
            VoterAction::Ignored
        },
    }
}

/// A vote is cast only in a session whose login admitted the voter, and only
/// while the ballot is open.
pub proof fn lemma_vote_needs_login_and_open_ballot(s: VoterSessionView, ballot_open: bool, event: VoterEvent)
    requires
        s.wf(),
        voter_transition(s, ballot_open, event).1 is CastVote,
    ensures
        s.admitted,
        ballot_open,
{
}

/// Every step keeps the rule that a voter chooses offices and candidates
/// only after an admitting login.
pub proof fn lemma_voter_session_wf_kept(s: VoterSessionView, ballot_open: bool, event: VoterEvent)
    requires
        s.wf(),
    ensures
        voter_transition(s, ballot_open, event).0.wf(),
{
}

/// The vote cast is for the office and the candidate the voter chose: an
/// admitted voter who, while the ballot is open, chooses office `o` (not
/// `logout`) and then candidate `c` casts a vote for `c` in `o`, and is
/// then offered the offices again, to vote in another one.
pub proof fn lemma_vote_goes_to_the_choices(s: VoterSessionView, o: String, c: String)
    requires
        s.stage is ChooseOffice,
        lowercase(o@) != "logout"@,
    ensures
        ({
            let (mid, shown) = voter_transition(s, true, VoterEvent::OfficeChosen(Some(o)));
            let (post, action) = voter_transition(mid, true, VoterEvent::CandidateChosen(Some(c)));
            &&& shown == VoterAction::ShowCandidates(o)
            &&& action == (VoterAction::CastVote { office: o, candidate: c })
            &&& post.stage is ChooseOffice
            &&& post.admitted == s.admitted
        }),
{
}

/// A refused login ends the session, and an ended session stays ended.
pub proof fn lemma_refused_login_ends_session(s: VoterSessionView, ballot_open: bool, event: VoterEvent)
    ensures
        s.stage is Login ==> (voter_transition(s, ballot_open, VoterEvent::LoggedIn(false)).0.stage is Done),
        s.stage is Done ==> voter_transition(s, ballot_open, event).0 == s,
{
}

} // verus!
