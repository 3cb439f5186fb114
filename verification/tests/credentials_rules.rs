use inner_shelter::credentials::{is_blank, white_space, LoginData, RegisterData};

fn login(username: &str, password: &str) -> LoginData {
    LoginData { username: username.to_string(), password: password.to_string() }
}

fn register(username: &str) -> RegisterData {
    RegisterData { username: username.to_string(), password: "secret".to_string() }
}

#[test]
fn white_space_is_what_trimming_removes() {
    let mut code: u32 = 0;
    while code <= 0x10FFFF {
        if let Some(c) = char::from_u32(code) {
            assert_eq!(white_space(c), c.is_whitespace(), "U+{:04X}", code);
        }
        code += 1;
    }
}

#[test]
fn a_text_is_blank_when_trimming_leaves_nothing() {
    for text in ["", " ", "\t\n\r ", "\u{3000}\u{2003}", "a", " a ", "\u{200B}", " \u{85}\u{A0} ", "é"] {
        assert_eq!(is_blank(text), text.trim().is_empty(), "{:?}", text);
    }
    assert!(is_blank(""));
    assert!(is_blank("  \t"));
    assert!(!is_blank(" x "));
}

#[test]
fn a_login_needs_a_name_and_a_password() {
    assert_eq!(login("alice", "pw").validate(), Ok(()));
    assert_eq!(login("", "pw").validate(), Err("Username cannot be empty".to_string()));
    assert_eq!(login("   ", "pw").validate(), Err("Username cannot be empty".to_string()));
    assert_eq!(login("alice", "").validate(), Err("Password cannot be empty".to_string()));
    assert_eq!(login(" ", "").validate(), Err("Username cannot be empty".to_string()));
    assert_eq!(login("alice", " ").validate(), Ok(()));
    assert_eq!(login(" a ", "pw").validate(), Ok(()));
}

#[test]
fn a_registration_needs_a_name_of_three_bytes() {
    assert_eq!(register("alice").validate(), Ok(()));
    assert_eq!(register("abc").validate(), Ok(()));
    assert_eq!(register("").validate(), Err("Username cannot be empty".to_string()));
    assert_eq!(register("\t ").validate(), Err("Username cannot be empty".to_string()));
    assert_eq!(
        register("ab").validate(),
        Err("Username must be at least 3 characters long".to_string())
    );
    assert_eq!(
        register("a").validate(),
        Err("Username must be at least 3 characters long".to_string())
    );
    assert_eq!(register("éé").validate(), Ok(()));
    assert_eq!(register(" a").validate(), Err("Username must be at least 3 characters long".to_string()));
    assert_eq!(register(" a ").validate(), Ok(()));
    let copy = register("carol").clone();
    assert_eq!(copy.username, "carol");
}
