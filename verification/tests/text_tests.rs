use voting_machine::text::{normalize_input, is_word, same_text, find_choice};

#[test]
fn normalize_trims_and_lowers() {
    assert_eq!(normalize_input("  HeLLo World \n"), "hello world");
    assert_eq!(normalize_input("\tYES\r\n"), "yes");
    assert_eq!(normalize_input("   "), "");
}

#[test]
fn is_word_ignores_letter_case() {
    assert!(is_word("EXIT", "exit"));
    assert!(is_word("exit", "exit"));
    assert!(!is_word("exit ", "exit"));
    assert!(!is_word("exi", "exit"));
}

#[test]
fn same_text_compares_characters() {
    assert!(same_text("Mayor", "Mayor"));
    assert!(!same_text("Mayor", "mayor"));
    assert!(!same_text("Mayor", "Mayors"));
    assert!(same_text("", ""));
}

#[test]
fn find_choice_first_match_regardless_of_case() {
    let options = vec!["President".to_string(), "Mayor".to_string(), "MAYOR".to_string()];
    assert_eq!(find_choice(&options, "mayor"), Some("Mayor".to_string()));
    assert_eq!(find_choice(&options, "PRESIDENT"), Some("President".to_string()));
    assert_eq!(find_choice(&options, "judge"), None);
    assert_eq!(find_choice(&Vec::new(), "judge"), None);
}
