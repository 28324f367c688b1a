use autoclip::amazon::{amazon_rewrite, AutoclipPluginAmazon};
use autoclip::contract::AutoclipPlugin;

#[test]
fn strips_between_domain_and_dp_segment() {
    assert_eq!(
        amazon_rewrite("https://www.amazon.co.jp/some-product-name/dp/B000ABC123/ref=foo"),
        Some("https://www.amazon.co.jp/dp/B000ABC123".to_string()),
    );
}

#[test]
fn on_clip_applies_the_same_rule() {
    let plugin = AutoclipPluginAmazon;
    assert_eq!(
        plugin.on_clip("https://www.amazon.co.jp/some-product-name/dp/B000ABC123/ref=foo"),
        Some("https://www.amazon.co.jp/dp/B000ABC123".to_string()),
    );
}

#[test]
fn canonical_url_is_no_change() {
    // The URL is already of the canonical shape; answering it as a
    // replacement would cause a spurious clipboard write.
    assert_eq!(amazon_rewrite("https://www.amazon.co.jp/dp/B000ABC123"), None);
}

#[test]
fn trailing_slash_is_stripped() {
    assert_eq!(
        amazon_rewrite("https://www.amazon.co.jp/dp/B000ABC123/"),
        Some("https://www.amazon.co.jp/dp/B000ABC123".to_string()),
    );
}

#[test]
fn query_clutter_after_the_id_is_stripped() {
    assert_eq!(
        amazon_rewrite("https://www.amazon.co.jp/gp/x/dp/B07PXGQC1Q?th=1&psc=1"),
        Some("https://www.amazon.co.jp/dp/B07PXGQC1Q".to_string()),
    );
}

#[test]
fn non_ascii_product_names_are_handled() {
    assert_eq!(
        amazon_rewrite("https://www.amazon.co.jp/本-日本語タイトル/dp/B000TEST9/ref=sr_1_1"),
        Some("https://www.amazon.co.jp/dp/B000TEST9".to_string()),
    );
}

#[test]
fn first_dp_segment_wins() {
    assert_eq!(
        amazon_rewrite("https://www.amazon.co.jp/a/dp/X1/b/dp/Y2"),
        Some("https://www.amazon.co.jp/dp/X1".to_string()),
    );
}

#[test]
fn dp_must_start_a_path_segment() {
    assert_eq!(amazon_rewrite("https://www.amazon.co.jp/xdp/B000ABC123"), None);
}

#[test]
fn identifier_must_be_upper_case_or_digits() {
    assert_eq!(amazon_rewrite("https://www.amazon.co.jp/dp/b000abc123"), None);
}

#[test]
fn missing_dp_segment_is_no_change() {
    assert_eq!(amazon_rewrite("https://www.amazon.co.jp/some-product-name"), None);
}

#[test]
fn other_domains_are_no_change() {
    assert_eq!(
        amazon_rewrite("https://www.example.org/some-product-name/dp/B000ABC123"),
        None,
    );
    assert_eq!(amazon_rewrite("a short text"), None);
    assert_eq!(amazon_rewrite(""), None);
}
