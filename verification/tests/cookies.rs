use quests_tracker::cookies::{get_cookie_value, is_whitespace};

#[test]
fn cookie_by_name() {
    assert_eq!(
        get_cookie_value("act=abc; rft=def", "act"),
        Some("abc".to_string())
    );
    assert_eq!(
        get_cookie_value("act=abc; rft=def", "rft"),
        Some("def".to_string())
    );
}

#[test]
fn cookie_that_is_absent() {
    assert_eq!(get_cookie_value("act=abc; rft=def", "ac"), None);
    assert_eq!(get_cookie_value("act=abc; rft=def", "abc"), None);
    assert_eq!(get_cookie_value("", "act"), None);
    assert_eq!(get_cookie_value("act", "act"), None);
    assert_eq!(get_cookie_value("act=abc; ", "rft"), None);
}

#[test]
fn cookie_with_space_around() {
    assert_eq!(
        get_cookie_value(" act = abc ; rft=def", "act"),
        Some("abc".to_string())
    );
    assert_eq!(
        get_cookie_value("act=\t a b \u{a0}; rft=def", "act"),
        Some("a b".to_string())
    );
    assert_eq!(get_cookie_value("act=   ", "act"), Some("".to_string()));
    assert_eq!(get_cookie_value("  =v", ""), Some("v".to_string()));
}

#[test]
fn piece_without_equals_sign_is_passed_over() {
    assert_eq!(
        get_cookie_value("flag; act=1", "act"),
        Some("1".to_string())
    );
    assert_eq!(get_cookie_value("flag; act=1", "flag"), None);
}

#[test]
fn name_ends_at_the_first_equals_sign() {
    assert_eq!(get_cookie_value("act=a=b", "act"), Some("a=b".to_string()));
    assert_eq!(get_cookie_value("act=a=b", "act=a"), None);
}

#[test]
fn semicolon_alone_does_not_separate() {
    assert_eq!(
        get_cookie_value("act=1;rft=2", "act"),
        Some("1;rft=2".to_string())
    );
    assert_eq!(get_cookie_value("act=1;rft=2", "rft"), None);
    assert_eq!(
        get_cookie_value("a=1; ; b=2", "b"),
        Some("2".to_string())
    );
}

#[test]
fn first_cookie_of_a_name_wins() {
    assert_eq!(
        get_cookie_value("act=1; act=2", "act"),
        Some("1".to_string())
    );
}

#[test]
fn cookie_beyond_ascii() {
    assert_eq!(
        get_cookie_value("né=héllo wörld; act=1", "né"),
        Some("héllo wörld".to_string())
    );
    assert_eq!(
        get_cookie_value("né=héllo wörld; act=1", "act"),
        Some("1".to_string())
    );
}

#[test]
fn white_space_is_what_std_says() {
    let mut code: u32 = 0;
    while code <= 0x3100 {
        if let Some(c) = char::from_u32(code) {
            assert_eq!(is_whitespace(c), c.is_whitespace());
        }
        code += 1;
    }
    assert!(!is_whitespace('\u{feff}'));
    assert!(!is_whitespace('\u{10ffff}'));
}
