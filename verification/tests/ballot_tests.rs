use voting_machine::{open_ballot, close_ballot, tally_allowed, Ballot, BallotChange, Candidate, Office};

fn sample_ballot(is_open: bool) -> Ballot {
    Ballot {
        offices: vec![Office {
            name: "Mayor".to_string(),
            candidates: vec![Candidate { name: "Ada".to_string(), party: "Blue".to_string(), votes: 3 }],
        }],
        is_open,
    }
}

#[test]
fn open_reports_change_and_keeps_offices() {
    let mut ballot = sample_ballot(false);
    assert_eq!(open_ballot(&mut ballot), BallotChange::Changed);
    assert!(ballot.is_open);
    assert_eq!(ballot.offices.len(), 1);
    assert_eq!(ballot.offices[0].name, "Mayor");
    assert_eq!(ballot.offices[0].candidates[0].votes, 3);
}

#[test]
fn open_twice_is_open_once() {
    let mut ballot = sample_ballot(false);
    assert_eq!(open_ballot(&mut ballot), BallotChange::Changed);
    assert_eq!(open_ballot(&mut ballot), BallotChange::Unchanged);
    assert!(ballot.is_open);
}

#[test]
fn close_reports_change_and_keeps_offices() {
    let mut ballot = sample_ballot(true);
    assert_eq!(close_ballot(&mut ballot), BallotChange::Changed);
    assert!(!ballot.is_open);
    assert_eq!(ballot.offices[0].candidates[0].name, "Ada");
}

#[test]
fn close_twice_is_close_once() {
    let mut ballot = sample_ballot(true);
    close_ballot(&mut ballot);
    assert_eq!(close_ballot(&mut ballot), BallotChange::Unchanged);
    assert!(!ballot.is_open);
}

#[test]
fn last_request_decides() {
    let mut ballot = sample_ballot(false);
    open_ballot(&mut ballot);
    close_ballot(&mut ballot);
    assert!(!ballot.is_open);
    open_ballot(&mut ballot);
    assert!(ballot.is_open);
    assert_eq!(ballot.offices.len(), 1);
}

#[test]
fn tally_only_once_closed() {
    let mut ballot = sample_ballot(true);
    assert!(!tally_allowed(&ballot));
    close_ballot(&mut ballot);
    assert!(tally_allowed(&ballot));
}
