use gudlink::libs::config::{listen_address, setting_or_default};
use gudlink::libs::model::page::Page;
use gudlink::libs::routes::{index_greeting, index_template, page_response, PageResponse};

#[test]
fn environment_value_wins() {
    assert_eq!(setting_or_default(Some("0.0.0.0".to_string()), "127.0.0.1"), "0.0.0.0");
}

#[test]
fn default_when_environment_is_silent() {
    assert_eq!(setting_or_default(None, "8080"), "8080");
}

#[test]
fn address_joins_host_and_port() {
    assert_eq!(listen_address("127.0.0.1", "8080"), "127.0.0.1:8080");
    assert_eq!(listen_address("", ""), ":");
}

#[test]
fn found_pages_are_rendered() {
    let lookup: Result<Vec<Page>, String> = Ok(vec![Page::new("t".to_string(), "h".to_string(), "l".to_string())]);
    let r = page_response(lookup);
    assert_eq!(r.template(), "gud-page");
    match r {
        PageResponse::Render(pages) => {
            assert_eq!(pages.len(), 1);
            assert_eq!(pages[0].handle, "h");
        }
        PageResponse::Unexpected => panic!("a found page is rendered"),
    }
}

#[test]
fn failed_lookup_renders_error_page() {
    let lookup: Result<Vec<Page>, String> = Err("down".to_string());
    let r = page_response(lookup);
    assert!(matches!(r, PageResponse::Unexpected));
    assert_eq!(r.template(), "unexpected");
}

#[test]
fn home_page() {
    assert_eq!(index_template(), "index");
    assert_eq!(index_greeting(), "Hello, World!");
}
