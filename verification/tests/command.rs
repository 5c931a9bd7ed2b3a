use enclave_session::command::{classify_line, LineClass};

#[test]
fn blank_line_is_blank() {
    assert_eq!(classify_line(&String::from("\n")), LineClass::Blank);
}

#[test]
fn empty_line_is_statement() {
    // a truly empty string is not the terminator-only line
    assert_eq!(classify_line(&String::from("")), LineClass::Statement);
}

#[test]
fn exit_sentinel_is_exit() {
    assert_eq!(classify_line(&String::from("quit\n")), LineClass::ExitRequest);
}

#[test]
fn exit_sentinel_is_case_sensitive() {
    assert_eq!(classify_line(&String::from("QUIT\n")), LineClass::Statement);
    assert_eq!(classify_line(&String::from("Quit\n")), LineClass::Statement);
}

#[test]
fn exit_sentinel_needs_terminator() {
    assert_eq!(classify_line(&String::from("quit")), LineClass::Statement);
}

#[test]
fn exit_sentinel_rejects_prefix_and_suffix() {
    assert_eq!(classify_line(&String::from(" quit\n")), LineClass::Statement);
    assert_eq!(classify_line(&String::from("quit \n")), LineClass::Statement);
    assert_eq!(classify_line(&String::from("quitter\n")), LineClass::Statement);
    assert_eq!(classify_line(&String::from("xquit\n")), LineClass::Statement);
}

#[test]
fn sql_text_is_statement() {
    assert_eq!(
        classify_line(&String::from("SELECT * FROM t;\n")),
        LineClass::Statement
    );
}
