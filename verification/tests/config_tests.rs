use kaspa_faucet::config::{strip_all, Config};

fn with_url(url: &str) -> Config {
    let mut config = Config::default();
    config.kaspad_url = url.to_string();
    config
}

#[test]
fn default_settings() {
    let config = Config::default();
    assert_eq!(config.kaspad_url, "127.0.0.1:16210");
    assert_eq!(config.port, 3010);
    assert_eq!(config.faucet_private_key, "");
    assert_eq!(config.amount_per_claim, 100_000_000);
    assert_eq!(config.claim_interval_seconds, 3600);
}

#[test]
fn clone_keeps_every_setting() {
    let mut config = with_url("grpc://node:1");
    config.port = 9;
    config.faucet_private_key = "ab".repeat(32);
    config.amount_per_claim = 5;
    config.claim_interval_seconds = 6;
    let copy = config.clone();
    assert_eq!(copy.kaspad_url, "grpc://node:1");
    assert_eq!(copy.port, 9);
    assert_eq!(copy.faucet_private_key, "ab".repeat(32));
    assert_eq!(copy.amount_per_claim, 5);
    assert_eq!(copy.claim_interval_seconds, 6);
}

#[test]
fn grpc_url_puts_the_scheme_in_front() {
    assert_eq!(Config::default().grpc_url(), "grpc://127.0.0.1:16210");
    assert_eq!(with_url("http://node.example:16210").grpc_url(), "grpc://node.example:16210");
    assert_eq!(with_url("https://node.example:16210").grpc_url(), "grpc://node.example:16210");
    assert_eq!(with_url("").grpc_url(), "grpc://");
}

#[test]
fn grpc_url_keeps_an_address_that_names_the_scheme() {
    assert_eq!(with_url("grpc://10.0.0.1:16210").grpc_url(), "grpc://10.0.0.1:16210");
    assert_eq!(with_url("grpc://http://x").grpc_url(), "grpc://http://x");
    assert_eq!(with_url("grpc:/x").grpc_url(), "grpc://grpc:/x");
}

#[test]
fn grpc_url_agrees_with_replace() {
    for url in [
        "a",
        "http://",
        "https://http://b",
        "hhttp://ttp://c",
        "httphttps://s://d",
        "x/http://y/https://z",
        "h\u{e9}\u{f4}te:1",
        "http:/http://e",
    ] {
        let expected = format!("grpc://{}", url.replace("http://", "").replace("https://", ""));
        assert_eq!(with_url(url).grpc_url(), expected);
    }
}

#[test]
fn strip_all_takes_occurrences_from_left_to_right() {
    assert_eq!(strip_all("aaa", "aa"), "a");
    assert_eq!(strip_all("ababab", "ab"), "");
    assert_eq!(strip_all("abcabc", "bc"), "aa");
    assert_eq!(strip_all("abc", ""), "abc");
    assert_eq!(strip_all("", "abc"), "");
    assert_eq!(strip_all("ab", "abc"), "ab");
    assert_eq!(strip_all("aabb", "ab"), "ab");
}
