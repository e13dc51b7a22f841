use framelink::counter::AtomicCounter;
use framelink::person::Person;
use framelink::records::{ApiResponse, User};
use framelink::text::{is_blank, push_decimal};

#[test]
fn greet_names_the_person_and_the_age() {
    let person = Person::new("Alice".to_string(), 30);
    assert_eq!(person.greet(), "Hello, my name is Alice and I am 30 years old.");
}

#[test]
fn greet_at_the_ends_of_the_age_range() {
    assert_eq!(
        Person::new(String::new(), 0).greet(),
        "Hello, my name is  and I am 0 years old."
    );
    assert_eq!(
        Person::new("Zoë".to_string(), u32::MAX).greet(),
        "Hello, my name is Zoë and I am 4294967295 years old."
    );
}

#[test]
fn decimal_numerals_match_the_standard_ones() {
    for n in [0u32, 1, 9, 10, 11, 99, 100, 101, 1_000, 65_535, 1_000_000_007, u32::MAX] {
        let mut out = String::from("n=");
        push_decimal(&mut out, n);
        assert_eq!(out, format!("n={}", n));
    }
}

#[test]
fn blank_is_empty_or_all_white_space() {
    assert!(is_blank(""));
    assert!(is_blank(" "));
    assert!(is_blank(" \t\r\n"));
    assert!(is_blank("\u{a0}\u{3000}\u{2003}\u{85}\u{1680}\u{2028}\u{2029}\u{202f}\u{205f}"));
    assert!(is_blank("\u{0b}\u{0c}"));
    assert!(!is_blank("a"));
    assert!(!is_blank("  a  "));
    assert!(!is_blank("\u{200b}"));
    assert!(!is_blank("\u{180e}"));
    assert!(!is_blank(" . "));
    assert!(!is_blank("temp/output.txt"));
}

#[test]
fn blank_agrees_with_the_white_space_property_of_every_char() {
    for code in 0..=0x3100u32 {
        if let Some(c) = char::from_u32(code) {
            let text = c.to_string();
            assert_eq!(is_blank(&text), c.is_whitespace(), "U+{:04X}", code);
        }
    }
}

#[test]
fn records_keep_their_columns() {
    let user = User::new(7, "Alice".to_string(), "alice@example.com".to_string());
    assert_eq!(user.id(), 7);
    assert_eq!(user.name(), "Alice");
    assert_eq!(user.email(), "alice@example.com");

    let response = ApiResponse { user_id: 1, id: 2, title: "delectus".to_string(), completed: false };
    assert_eq!(response.user_id, 1);
    assert_eq!(response.id, 2);
    assert_eq!(response.title, "delectus");
    assert!(!response.completed);
}

#[test]
fn atomic_counter_returns_the_count_before_each_step() {
    let counter = AtomicCounter::new();
    assert_eq!(counter.get(), 0);
    assert_eq!(counter.increment_relaxed(), 0);
    assert_eq!(counter.increment_release(), 1);
    assert_eq!(counter.increment_seqcst(), 2);
    assert_eq!(counter.get(), 3);
}
