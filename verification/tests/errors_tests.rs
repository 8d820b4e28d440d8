use shimmie_bot::errors::MjokError;

#[test]
fn new_keeps_the_message() {
    let e = MjokError::new("Guild Missing".to_string());
    assert_eq!(e.msg, "Guild Missing");
}

#[test]
fn new_str_copies_the_message() {
    let e = MjokError::new_str("db ded");
    assert_eq!(e.msg, "db ded");
}

#[test]
fn to_string_is_the_display_form() {
    assert_eq!(MjokError::new_str("Guild Missing").to_string(), "Fox error: Guild Missing\n");
    assert_eq!(MjokError::new_str("").to_string(), "Fox error: \n");
}

#[test]
fn debug_form_names_the_message() {
    assert_eq!(format!("{:?}", MjokError::new_str("Guild Missing")), "MjokError { msg: \"Guild Missing\" }");
}
