use copilot_auth::escape::html_escape;
use copilot_auth::page::{get_close_page, get_token_page, CLOSE_PAGE, PAGE_HEAD, PAGE_TAIL};
use copilot_auth::text::{push_decimal, text_eq};

#[test]
fn escape_leaves_plain_text_alone() {
    assert_eq!(html_escape("SECRET-REDACTED"), "SECRET-REDACTED");
    assert_eq!(html_escape("hello world 123 -_.~"), "hello world 123 -_.~");
}

#[test]
fn escape_of_empty_text_is_empty() {
    assert_eq!(html_escape(""), "");
}

#[test]
fn escape_replaces_each_of_the_five_characters() {
    assert_eq!(html_escape("&"), "&amp;");
    assert_eq!(html_escape("<"), "&lt;");
    assert_eq!(html_escape(">"), "&gt;");
    assert_eq!(html_escape("\""), "&quot;");
    assert_eq!(html_escape("'"), "&#39;");
}

#[test]
fn escape_keeps_the_order_of_the_text() {
    assert_eq!(html_escape("a<b>c&d\"e'f"), "a&lt;b&gt;c&amp;d&quot;e&#39;f");
    assert_eq!(html_escape("<<>>"), "&lt;&lt;&gt;&gt;");
}

#[test]
fn escape_does_not_spare_text_that_looks_escaped() {
    assert_eq!(html_escape("&amp;"), "&amp;amp;");
    assert_eq!(html_escape("&lt;"), "&amp;lt;");
    assert_eq!(html_escape("&#39;"), "&amp;#39;");
}

#[test]
fn escape_keeps_characters_beyond_ascii() {
    assert_eq!(html_escape("caf\u{e9} <\u{1f389}>"), "caf\u{e9} &lt;\u{1f389}&gt;");
}

#[test]
fn escape_is_the_same_piece_by_piece() {
    let a = "x<y";
    let b = "&\"z'";
    let whole = format!("{}{}", a, b);
    assert_eq!(html_escape(&whole), format!("{}{}", html_escape(a), html_escape(b)));
}

#[test]
fn escaped_text_is_inert_and_bounded() {
    let inputs = vec!["", "plain", "<script>", "a&b", "\"'\"'", "<>&\"'<>&\"'"];
    for input in inputs {
        let out = html_escape(input);
        assert!(!out.contains('<'));
        assert!(!out.contains('>'));
        assert!(!out.contains('"'));
        assert!(!out.contains('\''));
        assert!(out.chars().count() >= input.chars().count());
        assert!(out.chars().count() <= 6 * input.chars().count());
    }
}

#[test]
fn token_page_escapes_a_script_token() {
    let page = get_token_page("<script>alert(1)</script>");
    assert!(page.contains("&lt;script&gt;alert(1)&lt;/script&gt;"));
    assert!(!page.contains("<script>"));
}

#[test]
fn token_page_is_head_token_tail() {
    let page = get_token_page("gho_abc&def");
    assert_eq!(page, format!("{}{}{}", PAGE_HEAD, "gho_abc&amp;def", PAGE_TAIL));
    assert!(page.starts_with("<!DOCTYPE html>"));
    assert!(page.ends_with("</html>"));
}

#[test]
fn token_page_shows_the_token_in_its_code_element() {
    let page = get_token_page("gho_TOKEN");
    assert!(page.contains("<code class=\"token\" id=\"token\">gho_TOKEN</code>"));
}

#[test]
fn token_page_offers_copy_and_close() {
    let page = get_token_page("t");
    assert!(page.contains("navigator.clipboard.writeText"));
    assert!(page.contains("Copy Token"));
    assert!(page.contains("<a href=\"/close\""));
    assert!(page.contains("Close Server"));
}

#[test]
fn token_page_of_an_empty_token_is_head_and_tail() {
    assert_eq!(get_token_page(""), format!("{}{}", PAGE_HEAD, PAGE_TAIL));
}

#[test]
fn token_page_holds_no_script_element_of_its_own() {
    assert!(!PAGE_HEAD.contains("<script"));
    assert!(!PAGE_TAIL.contains("<script"));
}

#[test]
fn token_page_cannot_be_broken_out_of() {
    let page = get_token_page("</code><img src=x onerror=alert(1)>");
    assert!(!page.contains("<img"));
    assert!(page.contains("&lt;/code&gt;&lt;img src=x onerror=alert(1)&gt;"));
    let quoted = get_token_page("\" onmouseover=\"alert(1)");
    assert!(quoted.contains("&quot; onmouseover=&quot;alert(1)"));
}

#[test]
fn close_page_is_fixed() {
    assert_eq!(
        get_close_page(),
        "<html><body><h1>Server closed. You can close this tab.</h1></body></html>"
    );
    assert_eq!(get_close_page(), CLOSE_PAGE);
    assert_eq!(get_close_page(), get_close_page());
}

#[test]
fn decimal_text_of_numbers() {
    let cases: Vec<(u64, &str)> = vec![
        (0, "0"),
        (7, "7"),
        (9, "9"),
        (10, "10"),
        (99, "99"),
        (100, "100"),
        (404, "404"),
        (42847, "42847"),
        (65535, "65535"),
        (1234567890, "1234567890"),
        (u64::MAX, "18446744073709551615"),
    ];
    for (number, text) in cases {
        let mut out = String::new();
        push_decimal(&mut out, number);
        assert_eq!(out, text);
    }
}

#[test]
fn decimal_text_is_appended() {
    let mut out = String::from("port ");
    push_decimal(&mut out, 8080);
    assert_eq!(out, "port 8080");
}

#[test]
fn text_eq_compares_characters() {
    assert!(text_eq("", ""));
    assert!(text_eq("slow_down", "slow_down"));
    assert!(!text_eq("slow_down", "slow_dowm"));
    assert!(!text_eq("slow_down", "slow_down "));
    assert!(!text_eq("a", ""));
    assert!(text_eq("caf\u{e9}", "caf\u{e9}"));
    assert!(!text_eq("caf\u{e9}", "cafe"));
}
