use print_agent::pairing::{handle_deep_link_urls, parse_pairing_url, payload_from};

fn pairs(list: &[(&str, &str)]) -> Vec<(String, String)> {
    list.iter().map(|(k, v)| (k.to_string(), v.to_string())).collect()
}

#[test]
fn pairing_link() {
    let link = "lesscommerce-print-agent://setup?token=lpa_live_1&api=https%3A%2F%2Fapi.lesscommerce.io&name=Zebra+ZD220";
    let payload = parse_pairing_url(link).unwrap();
    assert_eq!(payload.token.as_deref(), Some("lpa_live_1"));
    assert_eq!(payload.api.as_deref(), Some("https://api.lesscommerce.io"));
    assert_eq!(payload.name.as_deref(), Some("Zebra ZD220"));
}

#[test]
fn parts_of_a_link_may_be_missing() {
    let payload = parse_pairing_url("lesscommerce-print-agent://setup").unwrap();
    assert_eq!(payload.token, None);
    assert_eq!(payload.api, None);
    assert_eq!(payload.name, None);
    let payload = parse_pairing_url("lesscommerce-print-agent://setup?token=&x=1").unwrap();
    assert_eq!(payload.token.as_deref(), Some(""));
    assert_eq!(payload.api, None);
}

#[test]
fn scheme_is_read_in_any_case() {
    assert!(parse_pairing_url("LessCommerce-Print-Agent://setup?token=t").is_some());
}

#[test]
fn other_links_are_not_for_the_agent() {
    assert!(parse_pairing_url("https://setup?token=t").is_none());
    assert!(parse_pairing_url("lesscommerce-print-agent").is_none());
    assert!(parse_pairing_url("").is_none());
    assert!(parse_pairing_url("not a url").is_none());
}

#[test]
fn last_value_of_a_key_counts() {
    let query = pairs(&[("token", "a"), ("name", "n"), ("other", "z"), ("token", "b")]);
    let payload = payload_from("lesscommerce-print-agent", &query).unwrap();
    assert_eq!(payload.token.as_deref(), Some("b"));
    assert_eq!(payload.name.as_deref(), Some("n"));
    assert_eq!(payload.api, None);
    assert!(payload_from("http", &query).is_none());
    let payload = parse_pairing_url("lesscommerce-print-agent://setup?api=1&api=2").unwrap();
    assert_eq!(payload.api.as_deref(), Some("2"));
}

#[test]
fn links_are_handed_on_in_order() {
    let urls: Vec<String> = [
        "lesscommerce-print-agent://setup?token=one",
        "https://example.com/?token=two",
        "lesscommerce-print-agent://setup?token=three",
    ]
    .iter()
    .map(|s| s.to_string())
    .collect();
    let payloads = handle_deep_link_urls(&urls);
    let tokens: Vec<Option<&str>> = payloads.iter().map(|p| p.token.as_deref()).collect();
    assert_eq!(tokens, vec![Some("one"), Some("three")]);
    assert!(handle_deep_link_urls(&Vec::new()).is_empty());
}
