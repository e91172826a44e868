use voting_machine::session::{
    age_check, AgeCheck, vote_decision, VoteOutcome, role_from_input, Role, admin_credentials_valid,
    admin_command, AdminCommand, choose_office, login_admits, Login, LoginVerdict, login_verdict_from,
};
use voting_machine::db::DbError;

#[test]
fn age_rules_at_their_edges() {
    assert_eq!(age_check(2000, 2024), AgeCheck::Eligible);
    assert_eq!(age_check(2006, 2024), AgeCheck::Eligible);
    assert_eq!(age_check(2007, 2024), AgeCheck::TooYoung);
    assert_eq!(age_check(2023, 2024), AgeCheck::TooYoung);
    assert_eq!(age_check(2024, 2024), AgeCheck::Eligible);
    assert_eq!(age_check(2026, 2024), AgeCheck::Eligible);
    assert_eq!(age_check(2027, 2024), AgeCheck::Eligible);
    assert_eq!(age_check(1909, 2024), AgeCheck::Eligible);
    assert_eq!(age_check(1908, 2024), AgeCheck::TooOld);
    assert_eq!(age_check(i32::MIN, i32::MAX), AgeCheck::TooOld);
    assert_eq!(age_check(i32::MAX, i32::MIN), AgeCheck::Eligible);
}

#[test]
fn one_vote_per_office() {
    assert_eq!(vote_decision(true), VoteOutcome::AlreadyVoted);
    assert_eq!(vote_decision(false), VoteOutcome::Cast);
}

#[test]
fn roles_are_read_after_trimming() {
    assert_eq!(role_from_input(" admin\n"), Role::Admin);
    assert_eq!(role_from_input("voter"), Role::Voter);
    assert_eq!(role_from_input("exit\r\n"), Role::Exit);
    assert_eq!(role_from_input("Admin"), Role::Unknown);
    assert_eq!(role_from_input(""), Role::Unknown);
}

#[test]
fn admin_credentials() {
    assert!(admin_credentials_valid("adminname\n", "  adminpassword\n"));
    assert!(!admin_credentials_valid("adminname", "wrong"));
    assert!(!admin_credentials_valid("Adminname", "adminpassword"));
}

#[test]
fn admin_menu_entries() {
    assert_eq!(admin_command("1\n"), AdminCommand::CreateElection);
    assert_eq!(admin_command(" 2 "), AdminCommand::RegisterVoter);
    assert_eq!(admin_command("3"), AdminCommand::OpenElection);
    assert_eq!(admin_command("4"), AdminCommand::CloseElection);
    assert_eq!(admin_command("5"), AdminCommand::TallyVotes);
    assert_eq!(admin_command("6"), AdminCommand::DeleteVoter);
    assert_eq!(admin_command("7"), AdminCommand::DeleteCandidate);
    assert_eq!(admin_command("8"), AdminCommand::DeleteOffice);
    assert_eq!(admin_command("9"), AdminCommand::ExitMenu);
    assert_eq!(admin_command("10"), AdminCommand::Invalid);
    assert_eq!(admin_command("x"), AdminCommand::Invalid);
}

#[test]
fn office_choice_and_logout() {
    let offices = vec!["President".to_string(), "Judge".to_string()];
    assert_eq!(choose_office(&offices, "LogOut"), Some("logout".to_string()));
    assert_eq!(choose_office(&offices, "judge"), Some("Judge".to_string()));
    assert_eq!(choose_office(&offices, "mayor"), None);
}

#[test]
fn login_admission() {
    let verified = Login::Checked { formatted_date: "01/01/1990".to_string(), verdict: LoginVerdict::Verified };
    let young = Login::Checked { formatted_date: "01/01/2015".to_string(), verdict: LoginVerdict::TooYoung };
    assert!(login_admits(&verified));
    assert!(!login_admits(&young));
    assert!(!login_admits(&Login::InvalidDate));
    assert!(matches!(login_verdict_from(Ok(true)), LoginVerdict::Verified));
    assert!(matches!(login_verdict_from(Ok(false)), LoginVerdict::NotRegistered));
    assert!(matches!(
        login_verdict_from(Err(DbError::InvalidQuery)),
        LoginVerdict::LookupFailed(DbError::InvalidQuery)
    ));
}

#[test]
fn unicode_whitespace_is_trimmed() {
    assert_eq!(role_from_input("\u{3000}voter\u{a0}"), Role::Voter);
    assert_eq!(role_from_input("\u{2028}exit\u{85}"), Role::Exit);
    assert_eq!(role_from_input("\u{200b}admin"), Role::Unknown);
}
