use server::select::{confirm_choice, ensure_choices, Prompt, SelectionError, SERVER_LIST_ROWS};

#[test]
fn choices_are_confirmed_within_the_list() {
    assert_eq!(ensure_choices(3), Ok(()));
    assert_eq!(confirm_choice(3, Some(0)), Ok(0));
    assert_eq!(confirm_choice(3, Some(2)), Ok(2));
    assert_eq!(confirm_choice(3, Some(3)), Err(SelectionError::OutOfRange));
    assert_eq!(confirm_choice(3, None), Err(SelectionError::Cancelled));
    assert_eq!(confirm_choice(0, None), Err(SelectionError::Empty));
}

#[test]
fn prompts_differ_in_rows_and_clearing() {
    let first = Prompt::environment();
    assert_eq!(first.label, "Select an environment");
    assert_eq!(first.default_index, 0);
    assert_eq!(first.max_rows, None);
    assert!(first.clear_screen);
    let second = Prompt::server();
    assert_eq!(second.label, "Select a server");
    assert_eq!(second.default_index, 0);
    assert_eq!(second.max_rows, Some(10));
    assert_eq!(SERVER_LIST_ROWS, 10);
    assert!(!second.clear_screen);
}
