#[test]
fn default_marketplace_base_url_is_open_vsx() {
    let client = sidex_extensions::MarketplaceClient::new();
    assert_eq!(
        client.base_url, "https://open-vsx.org/api",
        "marketplace must point at Open VSX, not a third-party proxy"
    );
}
