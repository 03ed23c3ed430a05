use print_agent::headers::{read_header, visible_text};
use reqwest::header::{HeaderMap, HeaderValue};

#[test]
fn header_names_are_found_in_any_case() {
    let mut headers = HeaderMap::new();
    headers.insert("x-print-job-uuid", HeaderValue::from_static("abc"));
    assert_eq!(read_header(&headers, "x-print-job-uuid"), Some("abc".to_string()));
    assert_eq!(read_header(&headers, "X-Print-Job-Uuid"), Some("abc".to_string()));
    assert_eq!(read_header(&headers, "x-print-job-format"), None);
}

#[test]
fn first_of_several_values_counts() {
    let mut headers = HeaderMap::new();
    headers.append("x-a", HeaderValue::from_static("one"));
    headers.append("x-a", HeaderValue::from_static("two"));
    headers.append("x-b", HeaderValue::from_static("three"));
    assert_eq!(read_header(&headers, "x-a"), Some("one".to_string()));
    assert_eq!(read_header(&headers, "x-b"), Some("three".to_string()));
}

#[test]
fn text_that_is_no_header_name_is_not_found() {
    let mut headers = HeaderMap::new();
    headers.insert("x-a", HeaderValue::from_static("one"));
    assert_eq!(read_header(&headers, ""), None);
    assert_eq!(read_header(&headers, "x a"), None);
    assert_eq!(read_header(&headers, "ż"), None);
    let long = "x".repeat(70) + "\n";
    assert_eq!(read_header(&headers, &long), None);
}

#[test]
fn invisible_values_have_no_text() {
    let mut headers = HeaderMap::new();
    headers.insert("x-a", HeaderValue::from_bytes(b"caf\xc3\xa9").unwrap());
    headers.insert("x-b", HeaderValue::from_static(""));
    headers.insert("x-c", HeaderValue::from_static("a\tb"));
    assert_eq!(read_header(&headers, "x-a"), None);
    assert_eq!(read_header(&headers, "x-b"), Some(String::new()));
    assert_eq!(read_header(&headers, "x-c"), Some("a\tb".to_string()));
}

#[test]
fn visible_text_agrees_with_the_http_crate() {
    for b in 0u8..=255 {
        if let Ok(value) = HeaderValue::from_bytes(&[b'a', b]) {
            let expected = value.to_str().ok().map(|s| s.to_string());
            assert_eq!(visible_text(&vec![b'a', b]), expected, "byte {}", b);
        }
    }
}
