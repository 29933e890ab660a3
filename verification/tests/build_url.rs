use qlik_rs::UrlBuilder;

#[test]
fn no_options_set_returns_default_url() {
    let url = UrlBuilder::new().build().unwrap();
    assert_eq!(url, "ws://localhost/");
}

#[test]
fn works_with_various_hostnames_types() {
    let builder = UrlBuilder::new();

    let builder = builder.with_hostname("subdomain.example.com");
    let url = builder.build().unwrap();

    assert_eq!(url, "ws://subdomain.example.com/");

    let builder = builder.with_hostname("127.0.0.0");
    let url = builder.build().unwrap();

    assert_eq!(url, "ws://127.0.0.0/");

    let builder = builder.with_hostname("[2001:0db8:0a0b:12f0:0000:0000:0000:0001]");
    let url = builder.build().unwrap();

    assert_eq!(url, "ws://[2001:db8:a0b:12f0::1]/");

    let builder = builder.with_hostname("");
    let url = builder.build().unwrap();

    assert_eq!(url, "ws://localhost/");
}

#[test]
fn trailing_input_is_removed() {
    let url = UrlBuilder::new()
        .with_hostname("example.com/////////////")
        .with_prefix("/mobile///")
        .build()
        .unwrap();

    assert_eq!(url, "ws://example.com/mobile")
}

#[test]
fn app_id_encoded_correctly() {
    let url = UrlBuilder::new()
        .with_app_id("My App File Name With_Some%Annoying Stuff!InItsName?")
        .build()
        .unwrap();

    assert_eq!(
        url,
        "ws://localhost/app/My%20App%20File%20Name%20With_Some%25Annoying%20Stuff!InItsName%3F"
    )
}

#[test]
fn secure_scheme_and_port() {
    let url = UrlBuilder::new()
        .with_hostname("localhost")
        .with_secure(true)
        .with_port(4848)
        .build()
        .unwrap();

    assert_eq!(url, "wss://localhost:4848/");
}

#[test]
fn route_overwrites_app_id() {
    let url = UrlBuilder::new()
        .with_app_id("my app")
        .with_route("analytics/hub")
        .build()
        .unwrap();

    assert_eq!(url, "ws://localhost/analytics/hub");
}

#[test]
fn app_id_overwrites_route() {
    let url = UrlBuilder::new()
        .with_route("analytics/hub")
        .with_app_id("my app")
        .build()
        .unwrap();

    assert_eq!(url, "ws://localhost/app/my%20app");
}

#[test]
fn build_is_idempotent() {
    let builder = UrlBuilder::new()
        .with_hostname("example.com")
        .with_secure(true)
        .with_app_id("some app")
        .with_ttl(30);

    let first = builder.build().unwrap();
    let second = builder.build().unwrap();

    assert_eq!(first, second);
}

#[test]
fn invalid_host_is_rejected() {
    let result = UrlBuilder::new().with_hostname("exa mple.com").build();

    assert!(result.is_err());
    assert!(!result.unwrap_err().message.is_empty());
}

#[test]
fn out_of_range_port_is_rejected() {
    let result = UrlBuilder::new().with_port(4294967295).build();

    assert!(result.is_err());
}

#[test]
fn identity_is_encoded() {
    let url = UrlBuilder::new().with_identity("my session").build().unwrap();

    assert_eq!(url, "ws://localhost/identity/my%20session");
}

#[test]
fn ttl_is_appended() {
    let url = UrlBuilder::new().with_ttl(30).build().unwrap();

    assert_eq!(url, "ws://localhost/ttl/30");
}

#[test]
fn params_are_encoded_in_order() {
    let params = vec![
        ("key one".to_string(), "value one".to_string()),
        ("k2".to_string(), "v?2".to_string()),
    ];
    let url = UrlBuilder::new().with_params(&params).build().unwrap();

    assert_eq!(url, "ws://localhost/?key%20one=value%20one&k2=v%3F2");
}

#[test]
fn duplicate_param_keys_are_kept() {
    let first = vec![("k".to_string(), "1".to_string())];
    let second = vec![("k".to_string(), "2".to_string())];
    let url = UrlBuilder::new()
        .with_params(&first)
        .with_params(&second)
        .build()
        .unwrap();

    assert_eq!(url, "ws://localhost/?k=1&k=2");
}

#[test]
fn all_segments_compose_in_fixed_order() {
    let url = UrlBuilder::new()
        .with_hostname("example.com")
        .with_prefix("/proxy/")
        .with_subpath("dataprepservice")
        .with_route("my/route")
        .with_identity("id 1")
        .with_ttl(60)
        .build()
        .unwrap();

    assert_eq!(
        url,
        "ws://example.com/proxy/dataprepservice/my/route/identity/id%201/ttl/60"
    );
}

#[test]
fn default_builder_matches_new() {
    let url = UrlBuilder::default().build().unwrap();

    assert_eq!(url, "ws://localhost/");
}

#[test]
fn app_id_slash_is_encoded_unlike_route() {
    let url = UrlBuilder::new().with_app_id("a/b").build().unwrap();

    assert_eq!(url, "ws://localhost/app/a%2Fb");
}

#[test]
fn segment_unsafe_characters_are_escaped() {
    let url = UrlBuilder::new().with_app_id("\"#%<>?`{}").build().unwrap();

    assert_eq!(url, "ws://localhost/app/%22%23%25%3C%3E%3F%60%7B%7D");
}

#[test]
fn app_id_above_ascii_is_utf8_encoded() {
    let url = UrlBuilder::new().with_app_id("caf\u{e9}").build().unwrap();

    assert_eq!(url, "ws://localhost/app/caf%C3%A9");
}
