use voting_machine::election::{ElectionSetup, SetupAction, SetupEvent, SetupStage};
use voting_machine::db::DbError;

fn typed(s: &str) -> SetupEvent {
    SetupEvent::Typed(s.to_string())
}

#[test]
fn full_setup_commits_an_open_ballot() {
    let mut setup = ElectionSetup::new();
    assert!(matches!(setup.step(typed("mayor")), SetupAction::CheckOffice(ref o) if o == "mayor"));
    assert!(matches!(setup.step(SetupEvent::OfficeCount(Ok(0))), SetupAction::InsertOffice(ref o) if o == "mayor"));
    assert!(matches!(setup.step(SetupEvent::Stored(Ok(()))), SetupAction::AskCandidateName));
    assert!(matches!(setup.step(typed("ada")), SetupAction::AskParty));
    match setup.step(typed("blue")) {
        SetupAction::InsertCandidate { candidate, party, office } => {
            assert_eq!((candidate.as_str(), party.as_str(), office.as_str()), ("ada", "blue", "mayor"));
        }
        _ => panic!("the candidate should be stored"),
    }
    assert!(matches!(setup.step(SetupEvent::Stored(Ok(()))), SetupAction::AskMoreCandidates));
    assert!(matches!(setup.step(typed("yes")), SetupAction::AskCandidateName));
    assert!(matches!(setup.step(typed("bob")), SetupAction::AskParty));
    assert!(matches!(setup.step(typed("red")), SetupAction::InsertCandidate { .. }));
    assert!(matches!(setup.step(SetupEvent::Stored(Ok(()))), SetupAction::AskMoreCandidates));
    assert!(matches!(setup.step(typed("no")), SetupAction::AskMoreOffices));
    assert_eq!(setup.offices().len(), 1);
    assert!(matches!(setup.step(typed("no")), SetupAction::Commit));
    assert!(matches!(setup.stage(), SetupStage::Committed));
    let ballot = setup.into_ballot().unwrap();
    assert!(ballot.is_open);
    assert_eq!(ballot.offices.len(), 1);
    assert_eq!(ballot.offices[0].name, "mayor");
    let names: Vec<&str> = ballot.offices[0].candidates.iter().map(|c| c.name.as_str()).collect();
    assert_eq!(names, vec!["ada", "bob"]);
    assert!(ballot.offices[0].candidates.iter().all(|c| c.votes == 0));
    assert_eq!(ballot.offices[0].candidates[1].party, "red");
}

#[test]
fn exit_at_office_name_cancels_without_ballot() {
    let mut setup = ElectionSetup::new();
    assert!(matches!(setup.step(typed("EXIT")), SetupAction::CancelElection));
    assert!(matches!(setup.step(typed("mayor")), SetupAction::Ignored));
    assert!(setup.into_ballot().is_none());
}

#[test]
fn exit_at_candidate_cancels_without_ballot() {
    let mut setup = ElectionSetup::new();
    setup.step(typed("mayor"));
    setup.step(SetupEvent::OfficeCount(Ok(0)));
    setup.step(SetupEvent::Stored(Ok(())));
    setup.step(typed("ada"));
    setup.step(typed("blue"));
    setup.step(SetupEvent::Stored(Ok(())));
    setup.step(typed("no"));
    assert!(matches!(setup.step(typed("yes")), SetupAction::AskOfficeName));
    setup.step(typed("judge"));
    setup.step(SetupEvent::OfficeCount(Ok(0)));
    setup.step(SetupEvent::Stored(Ok(())));
    setup.step(typed("cy"));
    assert!(matches!(setup.step(typed("exit")), SetupAction::CancelCandidate));
    assert_eq!(setup.offices().len(), 1);
    assert!(setup.into_ballot().is_none());
}

#[test]
fn existing_office_and_failures_ask_again() {
    let mut setup = ElectionSetup::new();
    setup.step(typed("mayor"));
    assert!(matches!(setup.step(SetupEvent::OfficeCount(Ok(1))), SetupAction::OfficeExists(ref o) if o == "mayor"));
    assert!(matches!(setup.stage(), SetupStage::OfficeName));
    setup.step(typed("mayor"));
    assert!(matches!(
        setup.step(SetupEvent::OfficeCount(Err(DbError::InvalidQuery))),
        SetupAction::OfficeCheckFailed(DbError::InvalidQuery)
    ));
    setup.step(typed("mayor"));
    setup.step(SetupEvent::OfficeCount(Ok(0)));
    assert!(matches!(
        setup.step(SetupEvent::Stored(Err(DbError::InvalidQuery))),
        SetupAction::OfficeInsertFailed(_)
    ));
    assert!(matches!(setup.stage(), SetupStage::OfficeName));
    setup.step(typed("mayor"));
    setup.step(SetupEvent::OfficeCount(Ok(0)));
    setup.step(SetupEvent::Stored(Ok(())));
    setup.step(typed("ada"));
    setup.step(typed("blue"));
    assert!(matches!(
        setup.step(SetupEvent::Stored(Err(DbError::InvalidQuery))),
        SetupAction::CandidateInsertFailed(_)
    ));
    assert!(matches!(setup.stage(), SetupStage::CandidateName { .. }));
}

#[test]
fn events_out_of_turn_are_ignored() {
    let mut setup = ElectionSetup::new();
    assert!(matches!(setup.step(SetupEvent::Stored(Ok(()))), SetupAction::Ignored));
    assert!(matches!(setup.stage(), SetupStage::OfficeName));
    setup.step(typed("mayor"));
    assert!(matches!(setup.step(typed("judge")), SetupAction::Ignored));
    assert!(matches!(setup.stage(), SetupStage::OfficeCheck { .. }));
}
