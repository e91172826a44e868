use voting_machine::voter::{voter_step, VoterAction, VoterEvent, VoterSession, VoterStage};
use voting_machine::Ballot;

fn ballot(is_open: bool) -> Ballot {
    Ballot { offices: vec![], is_open }
}

#[test]
fn admitted_voter_votes_then_logs_out() {
    let open = ballot(true);
    let mut s = VoterSession::new();
    assert!(matches!(voter_step(&mut s, &open, VoterEvent::LoggedIn(true)), VoterAction::ShowOffices));
    assert!(matches!(
        voter_step(&mut s, &open, VoterEvent::OfficeChosen(Some("Mayor".to_string()))),
        VoterAction::ShowCandidates(ref o) if o == "Mayor"
    ));
    match voter_step(&mut s, &open, VoterEvent::CandidateChosen(Some("Ada".to_string()))) {
        VoterAction::CastVote { office, candidate } => assert_eq!((office.as_str(), candidate.as_str()), ("Mayor", "Ada")),
        _ => panic!("the vote should be cast"),
    }
    assert!(matches!(voter_step(&mut s, &open, VoterEvent::OfficeChosen(None)), VoterAction::InvalidOffice));
    assert!(matches!(
        voter_step(&mut s, &open, VoterEvent::OfficeChosen(Some("LOGOUT".to_string()))),
        VoterAction::LogOut
    ));
    assert!(matches!(s.stage(), VoterStage::Done));
}

#[test]
fn refused_login_and_closed_ballot_end_the_session() {
    let open = ballot(true);
    let closed = ballot(false);
    let mut s = VoterSession::new();
    assert!(matches!(voter_step(&mut s, &open, VoterEvent::LoggedIn(false)), VoterAction::NotRegistered));
    assert!(matches!(
        voter_step(&mut s, &open, VoterEvent::OfficeChosen(Some("Mayor".to_string()))),
        VoterAction::Ignored
    ));
    let mut s = VoterSession::new();
    assert!(matches!(voter_step(&mut s, &closed, VoterEvent::LoggedIn(true)), VoterAction::ElectionClosed));
    assert!(matches!(s.stage(), VoterStage::Done));
}

#[test]
fn invalid_candidate_offers_offices_again() {
    let open = ballot(true);
    let mut s = VoterSession::new();
    voter_step(&mut s, &open, VoterEvent::LoggedIn(true));
    voter_step(&mut s, &open, VoterEvent::OfficeChosen(Some("Mayor".to_string())));
    assert!(matches!(voter_step(&mut s, &open, VoterEvent::CandidateChosen(None)), VoterAction::InvalidCandidate));
    assert!(matches!(s.stage(), VoterStage::ChooseOffice));
}
