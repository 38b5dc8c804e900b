use video_trimmer::text::{
    chars_of, contains, decimal_string, digit_value, found_at, has_prefix, join, same_text,
};

fn chars(text: &str) -> Vec<char> {
    text.chars().collect()
}

#[test]
fn characters_of_a_string() {
    assert_eq!(chars_of("añb"), vec!['a', 'ñ', 'b']);
    assert_eq!(chars_of(""), Vec::<char>::new());
}

#[test]
fn equal_texts() {
    assert!(same_text("16:9", "16:9"));
    assert!(!same_text("16:9", "16:90"));
    assert!(!same_text("16:9", "16:8"));
    assert!(same_text("", ""));
}

#[test]
fn prefixes() {
    assert!(has_prefix(&chars("https://x"), &chars("http")));
    assert!(has_prefix(&chars("http"), &chars("http")));
    assert!(!has_prefix(&chars("htt"), &chars("http")));
    assert!(!has_prefix(&chars("xhttp"), &chars("http")));
    assert!(has_prefix(&chars("abc"), &chars("")));
}

#[test]
fn occurrences() {
    assert!(contains(&chars("www.youtube.com"), &chars("youtube.com")));
    assert!(contains(&chars("youtube.com"), &chars("youtube.com")));
    assert!(!contains(&chars("youtube.co"), &chars("youtube.com")));
    assert!(!contains(&chars("youtube-com"), &chars("youtube.com")));
    assert!(contains(&chars(""), &chars("")));
    assert!(!contains(&chars(""), &chars("a")));
    assert!(found_at(&chars("abcabc"), &chars("bc"), 4));
    assert!(!found_at(&chars("abcabc"), &chars("bc"), 5));
    assert!(!found_at(&chars("abcabc"), &chars("bc"), 2));
}

#[test]
fn digits() {
    assert_eq!(digit_value('0'), Some(0));
    assert_eq!(digit_value('9'), Some(9));
    assert_eq!(digit_value('/'), None);
    assert_eq!(digit_value(':'), None);
    assert_eq!(digit_value('٣'), None);
}

#[test]
fn numbers_in_base_ten() {
    assert_eq!(decimal_string(0), "0");
    assert_eq!(decimal_string(7), "7");
    assert_eq!(decimal_string(10), "10");
    assert_eq!(decimal_string(1280), "1280");
    assert_eq!(decimal_string(u128::MAX), "340282366920938463463374607431768211455");
}

#[test]
fn joined_texts() {
    let none: Vec<String> = Vec::new();
    assert_eq!(join(&none, "; "), "");
    assert_eq!(join(&vec!["a".to_string()], "; "), "a");
    assert_eq!(join(&vec!["a".to_string(), "".to_string(), "b".to_string()], "; "), "a; ; b");
}
