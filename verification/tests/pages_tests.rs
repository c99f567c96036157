use login_audit::history::{
    classify_history, history_file_name, is_good_android, is_no_desktop, is_saved_page, profile_url,
    render_tbodies, TbodyMarkup, BASE_URL,
};

#[test]
fn history_file_is_named_after_the_user() {
    assert_eq!(history_file_name("Ivan Petrov"), "Ivan Petrov_history.html");
}

#[test]
fn profile_url_appends_the_id() {
    assert_eq!(profile_url(BASE_URL, 42), "https://relits.bitrix24.ru/company/personal/user/42");
    assert_eq!(profile_url("http://x", 0), "http://x/company/personal/user/0");
    assert_eq!(profile_url("", 4294967295), "/company/personal/user/4294967295");
}

#[test]
fn mobile_platforms_are_recognised() {
    assert!(is_good_android(Some("<td>Android 14</td>")));
    assert!(is_good_android(Some("iOS 17")));
    assert!(!is_good_android(Some("ios android")));
    assert!(!is_good_android(Some("")));
    assert!(!is_good_android(None));
}

#[test]
fn desktop_platforms_are_recognised() {
    assert!(!is_no_desktop(Some("Windows 10")));
    assert!(!is_no_desktop(Some("Win32")));
    assert!(is_no_desktop(Some("Linux, macOS")));
    assert!(is_no_desktop(Some("windows")));
    assert!(!is_no_desktop(None));
}

#[test]
fn no_desktop_is_no_win() {
    for page in ["Windows", "Win", "Wi", "xxWinxx", "", "WINDOWS"] {
        assert_eq!(is_no_desktop(Some(page)), !page.contains("Win"));
    }
}

#[test]
fn classification_combines_both() {
    let v = classify_history(Some("Android; Windows"));
    assert!(v.good_mobile);
    assert!(!v.no_desktop);
    let v = classify_history(None);
    assert!(!v.good_mobile);
    assert!(!v.no_desktop);
}

#[test]
fn tbodies_are_rendered_in_sections() {
    let parts = vec![
        TbodyMarkup { outer: Some("<tbody>a</tbody>".to_string()), inner: Some("a".to_string()) },
        TbodyMarkup { outer: None, inner: None },
        TbodyMarkup { outer: None, inner: Some("<tr>b</tr>".to_string()) },
    ];
    let text = render_tbodies(&parts).unwrap();
    let expected = format!(
        "[TBODY #1]\n{}\n<tbody>a</tbody>\n\n[TBODY #3 (inner)]\n<tr>b</tr>\n\n",
        "-".repeat(40)
    );
    assert_eq!(text, expected);
}

#[test]
fn tbody_numbers_go_past_nine() {
    let mut parts = Vec::new();
    for _ in 0..10 {
        parts.push(TbodyMarkup { outer: None, inner: None });
    }
    parts.push(TbodyMarkup { outer: Some(String::new()), inner: None });
    let text = render_tbodies(&parts).unwrap();
    assert_eq!(text, format!("[TBODY #11]\n{}\n\n\n", "-".repeat(40)));
}

#[test]
fn nothing_to_save_without_markup() {
    assert!(render_tbodies(&Vec::new()).is_none());
    let parts = vec![TbodyMarkup { outer: None, inner: None }];
    assert!(render_tbodies(&parts).is_none());
}

#[test]
fn saved_pages_are_html_files() {
    assert!(is_saved_page(true, "Ivan_history.html"));
    assert!(is_saved_page(true, "x.tar.html"));
    assert!(is_saved_page(true, ".hidden.html"));
    assert!(!is_saved_page(true, ".html"));
    assert!(!is_saved_page(true, "a.htm"));
    assert!(!is_saved_page(true, "a.HTML"));
    assert!(!is_saved_page(true, "html"));
    assert!(!is_saved_page(true, "a.html.bak"));
    assert!(!is_saved_page(false, "a.html"));
}

#[test]
fn saved_pages_match_path_extension() {
    for name in ["a.html", ".html", "a.", "a", "..html", "a.b.html", "é.html", "a.html "] {
        let ext = std::path::Path::new(name).extension();
        assert_eq!(is_saved_page(true, name), ext.map_or(false, |e| e == "html"), "{:?}", name);
    }
}

#[test]
fn second_clean_up_removes_nothing() {
    let entries = vec![
        (true, "a_history.html"),
        (true, "notes.txt"),
        (false, "dir.html"),
        (true, ".html"),
        (true, "b.html"),
    ];
    let kept: Vec<(bool, &str)> = entries.iter().copied().filter(|(f, n)| !is_saved_page(*f, n)).collect();
    assert_eq!(kept, vec![(true, "notes.txt"), (false, "dir.html"), (true, ".html")]);
    assert!(kept.iter().all(|(f, n)| !is_saved_page(*f, n)));
}
