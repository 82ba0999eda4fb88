use tuono_lib::fallback::{render_fallback, FALLBACK_PAGE_PATH, MISSING_PAGE, PLACEHOLDER};
use tuono_lib::template::replace_token;

#[test]
fn placeholder_gives_way_to_the_payload() {
    let page = Some(String::from("<div>[SERVER_PAYLOAD]</div>"));
    assert_eq!(render_fallback(page, Some("xyz")), "<div>xyz</div>");
}

#[test]
fn absent_payload_fills_in_nothing() {
    let page = Some(String::from("<div>[SERVER_PAYLOAD]</div>"));
    let html = render_fallback(page, None);
    assert_eq!(html, "<div></div>");
    assert!(!html.contains("None"));
    assert!(!html.contains("null"));
}

#[test]
fn unreadable_page_is_replaced_by_the_stand_in() {
    assert_eq!(render_fallback(None, Some("xyz")), "Fallback HTML not loaded");
    assert_eq!(render_fallback(None, None), "Fallback HTML not loaded");
}

#[test]
fn the_names_of_the_static_page_are_fixed() {
    assert_eq!(FALLBACK_PAGE_PATH, "./.tuono/index.html");
    assert_eq!(MISSING_PAGE, "Fallback HTML not loaded");
    assert_eq!(PLACEHOLDER, "[SERVER_PAYLOAD]");
}

#[test]
fn every_placeholder_is_filled() {
    let page = Some(String::from("[SERVER_PAYLOAD]a[SERVER_PAYLOAD]b[SERVER_PAYLOAD]"));
    assert_eq!(render_fallback(page, Some("<1>")), "<1>a<1>b<1>");
}

#[test]
fn page_without_placeholder_is_served_as_it_is() {
    let page = "<html><body>[SERVER_PAYLOAD</body></html>";
    assert_eq!(render_fallback(Some(String::from(page)), Some("xyz")), page);
}

#[test]
fn empty_page_stays_empty() {
    assert_eq!(render_fallback(Some(String::new()), Some("xyz")), "");
}

#[test]
fn page_that_is_the_placeholder_becomes_the_payload() {
    assert_eq!(render_fallback(Some(String::from("[SERVER_PAYLOAD]")), Some("p")), "p");
    assert_eq!(render_fallback(Some(String::from("[SERVER_PAYLOAD]")), None), "");
}

#[test]
fn text_other_than_the_placeholder_is_kept() {
    let page = Some(String::from("été [server_payload] [SERVER_PAYLOAD] ✓"));
    assert_eq!(render_fallback(page, Some("ü")), "été [server_payload] ü ✓");
}

#[test]
fn second_pass_changes_nothing_once_no_placeholder_is_left() {
    let once = render_fallback(Some(String::from("<p>[SERVER_PAYLOAD]</p>")), Some("{\"a\":1}"));
    assert_eq!(once, "<p>{\"a\":1}</p>");
    let twice = render_fallback(Some(once.clone()), Some("{\"a\":1}"));
    assert_eq!(twice, once);
}

#[test]
fn second_pass_replaces_a_placeholder_that_the_first_put_together() {
    let page = String::from("[SERVER_[SERVER_PAYLOAD]PAYLOAD]");
    let once = render_fallback(Some(page), None);
    assert_eq!(once, "[SERVER_PAYLOAD]");
    assert_eq!(render_fallback(Some(once), None), "");
}

#[test]
fn payload_that_holds_the_placeholder_is_put_in_as_it_is() {
    let once = render_fallback(Some(String::from("a[SERVER_PAYLOAD]b")), Some("[SERVER_PAYLOAD]"));
    assert_eq!(once, "a[SERVER_PAYLOAD]b");
}

#[test]
fn replace_token_reads_from_the_left() {
    assert_eq!(replace_token("aaa", "aa", "b"), "ba");
    assert_eq!(replace_token("aaaa", "aa", "b"), "bb");
    assert_eq!(replace_token("abab", "ab", ""), "");
    assert_eq!(replace_token("xabyabz", "ab", "123"), "x123y123z");
}

#[test]
fn replace_token_agrees_with_the_standard_replacement() {
    let texts = ["", "a", "[SERVER_PAYLOAD]", "x[SERVER_PAYLOAD]", "[[SERVER_PAYLOAD]]", "été"];
    for text in texts {
        for with in ["", "w", "[SERVER_PAYLOAD]", "日本"] {
            assert_eq!(replace_token(text, PLACEHOLDER, with), text.replace(PLACEHOLDER, with));
        }
    }
}

#[test]
fn replace_token_leaves_the_text_where_the_token_is_empty_or_longer() {
    assert_eq!(replace_token("abc", "", "x"), "abc");
    assert_eq!(replace_token("ab", "abc", "x"), "ab");
    assert_eq!(replace_token("", "abc", "x"), "");
}

#[test]
fn replace_token_by_itself_changes_nothing() {
    assert_eq!(replace_token("a-b-c", "-", "-"), "a-b-c");
}
