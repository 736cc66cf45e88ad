use appa::greet;

#[test]
fn test_greet_with_name() {
    let result = greet(Some("Alice"));
    assert_eq!(result, "Hello, Alice! Welcome to appa CLI tool.");
}

#[test]
fn test_greet_without_name() {
    let result = greet(None);
    assert_eq!(result, "Hello, world! Welcome to appa CLI tool.");
}

#[test]
fn test_greet_empty_string() {
    let result = greet(Some(""));
    assert_eq!(result, "Hello, ! Welcome to appa CLI tool.");
}

#[test]
fn greeting_is_opening_name_close() {
    for name in ["Bob", "x", "two words", "  ", "Zoë", "名前", "a\nb", "{}"] {
        let expected = format!("{}{}{}", "Hello, ", name, "! Welcome to appa CLI tool.");
        assert_eq!(greet(Some(name)), expected);
    }
}

#[test]
fn greeting_length_counts_every_character_of_the_name() {
    let bare = greet(Some("")).chars().count();
    assert_eq!(bare, 34);
    assert_eq!(greet(Some("Alice")).chars().count(), bare + 5);
    assert_eq!(greet(Some("名前")).chars().count(), bare + 2);
}

#[test]
fn greeting_keeps_the_name_as_given() {
    assert_eq!(greet(Some(" Alice ")), "Hello,  Alice ! Welcome to appa CLI tool.");
    assert_eq!(greet(Some("world!")), "Hello, world!! Welcome to appa CLI tool.");
    assert_eq!(greet(Some("ALICE")), "Hello, ALICE! Welcome to appa CLI tool.");
}

#[test]
fn absent_name_is_greeted_as_world() {
    assert_eq!(greet(None), greet(Some("world")));
}

#[test]
fn absent_name_differs_from_empty_name() {
    assert_ne!(greet(None), greet(Some("")));
}

#[test]
fn greeting_twice_gives_the_same_text() {
    assert_eq!(greet(Some("Alice")), greet(Some("Alice")));
    assert_eq!(greet(Some("")), greet(Some("")));
    assert_eq!(greet(None), greet(None));
    let owned = String::from("Alice");
    assert_eq!(greet(Some(owned.as_str())), greet(Some("Alice")));
}

#[test]
fn different_names_get_different_greetings() {
    assert_ne!(greet(Some("Alice")), greet(Some("Bob")));
    assert_ne!(greet(Some("Alice")), greet(Some("alice")));
    assert_ne!(greet(Some("a")), greet(Some("a ")));
}
