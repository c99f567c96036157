use login_audit::users::{parse_user_id, parse_user_line, parse_users, UsersError};

fn pairs(v: &[(u32, String)]) -> Vec<(u32, &str)> {
    v.iter().map(|(id, name)| (*id, name.as_str())).collect()
}

#[test]
fn users_are_read_line_by_line() {
    let users = parse_users("1 Ivan Petrov\n\n   \n23 Anna\r\n").unwrap();
    assert_eq!(pairs(&users), vec![(1, "Ivan Petrov"), (23, "Anna")]);
}

#[test]
fn empty_text_has_no_users() {
    assert!(parse_users("").unwrap().is_empty());
    assert!(parse_users("\n\n \t\n").unwrap().is_empty());
}

#[test]
fn last_line_needs_no_newline() {
    let users = parse_users("7 A\n8 B").unwrap();
    assert_eq!(pairs(&users), vec![(7, "A"), (8, "B")]);
}

#[test]
fn carriage_return_kept_on_last_line_without_newline() {
    let users = parse_users("3 Bob\r").unwrap();
    assert_eq!(pairs(&users), vec![(3, "Bob\r")]);
}

#[test]
fn name_keeps_everything_after_first_space() {
    let users = parse_users("5  Double  Space \n").unwrap();
    assert_eq!(pairs(&users), vec![(5, " Double  Space ")]);
}

#[test]
fn line_without_space_has_empty_name() {
    let users = parse_users("4294967295\n").unwrap();
    assert_eq!(pairs(&users), vec![(4294967295, "")]);
}

#[test]
fn malformed_id_rejects_the_list() {
    assert!(matches!(parse_users("1 A\nx Bob\n2 C\n"), Err(UsersError::WrongFormatId)));
    assert!(matches!(parse_users(" 5 Leading"), Err(UsersError::WrongFormatId)));
    assert!(matches!(parse_users("4294967296 Big"), Err(UsersError::WrongFormatId)));
    assert!(matches!(parse_users("-1 Neg"), Err(UsersError::WrongFormatId)));
}

#[test]
fn user_ids_follow_u32_from_str() {
    for s in ["0", "+7", "007", "4294967295", "", "+", "-0", "1_0", "12a", " 1", "4294967296", "99999999999999999999"] {
        assert_eq!(parse_user_id(s), s.parse::<u32>().ok(), "{:?}", s);
    }
}

#[test]
fn single_lines() {
    assert!(matches!(parse_user_line("  \t"), Ok(None)));
    assert!(matches!(parse_user_line("bad"), Err(UsersError::WrongFormatId)));
    match parse_user_line("12 Anna Ivanova") {
        Ok(Some((12, name))) => assert_eq!(name, "Anna Ivanova"),
        _ => panic!("expected a user"),
    }
}

#[test]
fn unicode_names_survive() {
    let users = parse_users("10 Иван Петров\n11 Ёжик\u{3000}\n").unwrap();
    assert_eq!(pairs(&users), vec![(10, "Иван Петров"), (11, "Ёжик\u{3000}")]);
}

#[test]
fn unicode_whitespace_line_is_blank() {
    let users = parse_users("\u{3000}\u{a0}\n1 A\n").unwrap();
    assert_eq!(pairs(&users), vec![(1, "A")]);
}
